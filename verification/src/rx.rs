//! Two-slot receive buffer fed by a background copy engine.
//!
//! The serial line delivers command frames without delimiters; a copy
//! engine places incoming bytes into two fixed-size slots in
//! round-robin order, and a line-idle interrupt marks the end of a
//! frame.  The handler must stop the engine, compute how many bytes
//! actually arrived (`2 * capacity` minus the engine's remaining
//! count), hand slot 0 to the command interpreter, and re-arm the
//! engine before returning — the buffer is never left un-armed.

use vstd::prelude::*;
use vstd::pervasive::VecAdditionalExecFns;
use crate::command::{Command, MotorState, spec_decode, spec_apply, decode_command, COMMAND_SIZE};

verus! {

/// Ghost state of the receiver: the two slots' bytes, how many bytes
/// the copy engine has written since the last re-arm, the slot
/// capacity, and whether the engine is armed.
pub struct RxView {
    pub slot0: Seq<u8>,
    pub slot1: Seq<u8>,
    pub written: nat,
    pub capacity: nat,
    pub armed: bool,
}

impl RxView {
    /// Slots hold exactly `capacity` bytes and the engine has written
    /// at most one full round of both slots.
    pub open spec fn wf(self) -> bool {
        &&& self.slot0.len() == self.capacity
        &&& self.slot1.len() == self.capacity
        &&& self.written <= 2 * self.capacity
        &&& 1 <= self.capacity <= usize::MAX / 2
    }

    /// One byte placed by the copy engine: slot 0 first, then slot 1.
    pub open spec fn engine_step(self, b: u8) -> RxView
        recommends
            self.written < 2 * self.capacity,
    {
        if self.written < self.capacity {
            RxView { slot0: self.slot0.update(self.written as int, b), written: self.written + 1, ..self }
        } else {
            RxView {
                slot1: self.slot1.update(self.written - self.capacity, b),
                written: self.written + 1,
                ..self
            }
        }
    }

    /// A whole burst of bytes placed by the copy engine.
    pub open spec fn engine_run(self, data: Seq<u8>) -> RxView
        decreases data.len(),
    {
        if data.len() == 0 {
            self
        } else {
            self.engine_step(data[0]).engine_run(data.skip(1))
        }
    }

    /// The byte count the idle handler reports: the full double-slot
    /// length minus the engine's remaining count.
    pub open spec fn received_len(self) -> nat {
        self.written
    }

    /// State after the idle handler re-arms the engine.
    pub open spec fn rearmed(self) -> RxView {
        RxView { written: 0, armed: true, ..self }
    }
}

/// The double-buffered receiver.  The copy engine's progress is the
/// `written` counter; the hardware exposes it to the handler as the
/// remaining count `2 * capacity - written`.
pub struct Receiver {
    slot0: Vec<u8>,
    slot1: Vec<u8>,
    written: usize,
    armed: bool,
}

impl View for Receiver {
    type V = RxView;

    closed spec fn view(&self) -> RxView {
        RxView {
            slot0: self.slot0@,
            slot1: self.slot1@,
            written: self.written as nat,
            capacity: self.slot0@.len(),
            armed: self.armed,
        }
    }
}

impl Receiver {
    /// Fresh armed receiver with both slots zeroed.
    pub fn new(capacity: usize) -> (r: Receiver)
        requires
            1 <= capacity <= usize::MAX / 2,
        ensures
            r@.wf(),
            r@.armed,
            r@.written == 0,
            r@.capacity == capacity,
            r@.slot0 == Seq::<u8>::new(capacity as nat, |i: int| 0u8),
            r@.slot1 == Seq::<u8>::new(capacity as nat, |i: int| 0u8),
    {
        let mut slot0: Vec<u8> = Vec::new();
        let mut slot1: Vec<u8> = Vec::new();
        let mut i: usize = 0;
        while i < capacity
            invariant
                i <= capacity,
                slot0@ =~= Seq::<u8>::new(i as nat, |j: int| 0u8),
                slot1@ =~= Seq::<u8>::new(i as nat, |j: int| 0u8),
            decreases capacity - i,
        {
            slot0.push(0);
            slot1.push(0);
            i = i + 1;
        }
        assert(slot0@ =~= Seq::<u8>::new(capacity as nat, |j: int| 0u8));
        assert(slot1@ =~= Seq::<u8>::new(capacity as nat, |j: int| 0u8));
        Receiver { slot0, slot1, written: 0, armed: true }
    }

    /// The remaining count the hardware would report to the handler.
    pub fn remaining(&self) -> (r: usize)
        requires
            self@.wf(),
        ensures
            r == 2 * self@.capacity - self@.written,
    {
        2 * self.slot0.len() - self.written
    }

    /// The copy engine places the next received byte.  Bytes fill
    /// slot 0 first, then slot 1; the engine only runs while armed.
    pub fn engine_write(&mut self, b: u8)
        requires
            old(self)@.wf(),
            old(self)@.armed,
            old(self)@.written < 2 * old(self)@.capacity,
        ensures
            final(self)@ == old(self)@.engine_step(b),
            final(self)@.wf(),
    {
        let cap: usize = self.slot0.len();
        if self.written < cap {
            self.slot0.set(self.written, b);
        } else {
            self.slot1.set(self.written - cap, b);
        }
        self.written = self.written + 1;
    }

    /// The line-idle handler: stop the engine, report how many bytes
    /// were received into the current round, decode slot 0 and apply
    /// the command to the motor, then re-arm the engine.  The
    /// receiver always comes back armed with a fresh round.
    pub fn handle_idle(&mut self, motor: &mut MotorState, max_duty: u16) -> (len: usize)
        requires
            old(self)@.wf(),
            old(self)@.armed,
        ensures
            len == old(self)@.received_len(),
            final(self)@ == old(self)@.rearmed(),
            final(self)@.armed,
            final(self)@.wf(),
            old(self)@.capacity == COMMAND_SIZE ==> *final(motor) == spec_apply(
                *old(motor),
                spec_decode(old(self)@.slot0),
                max_duty,
            ),
            old(self)@.capacity != COMMAND_SIZE ==> *final(motor) == *old(motor),
    {
        let len: usize = self.written;
        let decoded: Option<Command> = decode_command(self.slot0.as_slice());
        match decoded {
            Some(c) => {
                motor.apply_command(c, max_duty);
            },
            None => {},
        }
        self.written = 0;
        self.armed = true;
        len
    }

    /// The handler's byte-count computation from the remaining count
    /// the copy engine reports: the full double-slot length minus
    /// what is still unfilled.  A partial fill of `k` bytes gives
    /// `k`; a roll-over into the second slot counts both slots.
    pub fn received_count(capacity: usize, remaining: usize) -> (len: usize)
        requires
            capacity <= usize::MAX / 2,
            remaining <= 2 * capacity,
        ensures
            len == 2 * capacity - remaining,
    {
        2 * capacity - remaining
    }

    /// Bytes currently held by slot 0.
    pub fn slot0_bytes(&self) -> (r: &Vec<u8>)
        ensures
            r@ == self@.slot0,
    {
        &self.slot0
    }

    /// Bytes currently held by slot 1.
    pub fn slot1_bytes(&self) -> (r: &Vec<u8>)
        ensures
            r@ == self@.slot1,
    {
        &self.slot1
    }
}

/// Slot handoff: if the copy engine fills an armed, empty receiver
/// with `k <= capacity` bytes and the line then idles, the handler
/// reports exactly `k` received bytes, the received bytes sit at the
/// front of slot 0, the other slot is untouched, and the receiver is
/// re-armed for the next frame.
pub proof fn lemma_slot_handoff(v0: RxView, data: Seq<u8>)
    requires
        v0.wf(),
        v0.armed,
        v0.written == 0,
        data.len() <= v0.capacity,
    ensures
        v0.engine_run(data).received_len() == data.len(),
        v0.engine_run(data).slot0 == data + v0.slot0.skip(data.len() as int),
        v0.engine_run(data).slot1 == v0.slot1,
        v0.engine_run(data).rearmed().armed,
        v0.engine_run(data).rearmed().written == 0,
{
    lemma_engine_run_prefix(v0, data);
    assert(v0.engine_run(data).slot0 =~= data + v0.slot0.skip(data.len() as int));
}

/// End to end over the receive path: a full command frame placed by
/// the copy engine into an empty armed receiver lands verbatim in
/// slot 0, so decoding and applying it drives the enable line high
/// exactly when the frame's first byte is non-zero, with the
/// receiver re-armed behind it.
pub proof fn lemma_command_path(v0: RxView, data: Seq<u8>, m: MotorState, max_duty: u16)
    requires
        v0.wf(),
        v0.armed,
        v0.written == 0,
        v0.capacity == COMMAND_SIZE,
        data.len() == COMMAND_SIZE,
    ensures
        v0.engine_run(data).slot0 == data,
        v0.engine_run(data).received_len() == COMMAND_SIZE,
        v0.engine_run(data).rearmed().armed,
        spec_apply(m, spec_decode(v0.engine_run(data).slot0), max_duty).enabled <==> data[0] != 0,
{
    lemma_slot_handoff(v0, data);
    assert(data + v0.slot0.skip(data.len() as int) =~= data);
    crate::command::lemma_enable_tracks_frame(data, m, max_duty);
}

/// While the engine stays inside slot 0, each burst of `data` bytes
/// lands as a prefix of slot 0 starting at the write position.
proof fn lemma_engine_run_prefix(v: RxView, data: Seq<u8>)
    requires
        v.wf(),
        v.written + data.len() <= v.capacity,
    ensures
        v.engine_run(data).written == v.written + data.len(),
        v.engine_run(data).capacity == v.capacity,
        v.engine_run(data).armed == v.armed,
        v.engine_run(data).slot1 == v.slot1,
        v.engine_run(data).slot0.len() == v.capacity,
        forall|i: int|
            0 <= i < data.len() ==> v.engine_run(data).slot0[v.written + i] == data[i],
        forall|i: int|
            0 <= i < v.capacity && !(v.written <= i < v.written + data.len())
                ==> v.engine_run(data).slot0[i] == v.slot0[i],
    decreases data.len(),
{
    if data.len() == 0 {
    } else {
        let v1 = v.engine_step(data[0]);
        let rest = data.skip(1);
        lemma_engine_run_prefix(v1, rest);
        assert(v.engine_run(data) == v1.engine_run(rest));
        assert forall|i: int| 0 <= i < data.len() implies v.engine_run(data).slot0[v.written + i]
            == data[i] by {
            if i == 0 {
                assert(v1.engine_run(rest).slot0[v.written as int] == v1.slot0[v.written as int]);
                assert(v1.slot0[v.written as int] == data[0]);
            } else {
                assert(v1.engine_run(rest).slot0[v1.written + (i - 1)] == rest[i - 1]);
                assert(rest[i - 1] == data[i]);
            }
        }
        assert forall|i: int|
            0 <= i < v.capacity && !(v.written <= i < v.written + data.len()) implies v.engine_run(
            data,
        ).slot0[i] == v.slot0[i] by {
            assert(v1.engine_run(rest).slot0[i] == v1.slot0[i]);
            assert(v1.slot0[i] == v.slot0[i]);
        }
    }
}

} // verus!
