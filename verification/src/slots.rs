//! The frame slot pool: the fixed ring of per-frame synchronization
//! primitives and command buffers. Slot `i` owns one image-acquired
//! signal, one render-finished signal, one submission-complete fence and
//! one command buffer; every handle is identified by the slot index. A
//! slot is reused only after its fence wait has completed — the sole
//! mechanism keeping the processor from overwriting a buffer the device
//! has not finished consuming.

use vstd::prelude::*;
use crate::recorder::BufferState;
use crate::recorder::ClearColor;
use crate::recorder::CommandBuffer;
use crate::recorder::DrawIntent;
use crate::recorder::PipelineId;
use crate::recorder::RecordError;
use crate::recorder::frame_commands;
use crate::surface::Extent2D;

verus! {

/// Why a pool could not be built.
#[derive(Clone, Copy, PartialEq, Eq, Structural, Debug)]
pub enum PoolError {
    /// A pool needs at least one slot.
    ZeroSlots,
}

/// The fixed-size ring of frame slots. The slot count is set at
/// construction and never changes.
#[derive(Clone, PartialEq, Eq, Debug)]
pub struct FrameSlotPool {
    pub buffers: Vec<CommandBuffer>,
}

/// The number of `true` entries of a sequence of flags.
pub open spec fn count_true(s: Seq<bool>) -> int
    decreases s.len(),
{
    if s.len() == 0 {
        0
    } else {
        count_true(s.drop_last()) + if s.last() {
            1int
        } else {
            0int
        }
    }
}

/// A count of flags never exceeds the number of flags.
pub proof fn lemma_count_true_bounded(s: Seq<bool>)
    ensures
        0 <= count_true(s) <= s.len(),
    decreases s.len(),
{
    if s.len() > 0 {
        lemma_count_true_bounded(s.drop_last());
    }
}

impl FrameSlotPool {
    /// The fixed number of slots.
    pub open spec fn slot_count(self) -> int {
        self.buffers@.len() as int
    }

    /// A pool is well-formed when it has at least one slot.
    pub open spec fn wf(self) -> bool {
        self.slot_count() >= 1
    }

    /// Whether slot `i`'s submission is outstanding: submitted, fence wait
    /// not yet completed.
    pub open spec fn slot_pending(self, i: int) -> bool {
        self.buffers@[i].state == BufferState::Pending
    }

    /// Which slots are outstanding.
    pub open spec fn pending_flags(self) -> Seq<bool> {
        self.buffers@.map_values(|b: CommandBuffer| b.state == BufferState::Pending)
    }

    /// How many submissions are outstanding across the ring.
    pub open spec fn pending_count(self) -> int {
        count_true(self.pending_flags())
    }

    /// Pre-allocate exactly `n` slots, each with a fresh command buffer.
    pub fn new(n: usize) -> (r: Result<FrameSlotPool, PoolError>)
        ensures
            (n == 0) <==> (r == Err::<FrameSlotPool, PoolError>(PoolError::ZeroSlots)),
            r matches Ok(p) ==> {
                &&& p.slot_count() == n
                &&& p.wf()
                &&& forall|i: int|
                    0 <= i < n ==> p.buffers@[i].state == BufferState::Initial
                        && p.buffers@[i].commands@.len() == 0
            },
    {
        if n == 0 {
            return Err(PoolError::ZeroSlots);
        }
        let mut buffers: Vec<CommandBuffer> = Vec::new();
        let mut i: usize = 0;
        while i < n
            invariant
                0 <= i <= n,
                buffers@.len() == i,
                forall|j: int|
                    0 <= j < i ==> buffers@[j].state == BufferState::Initial
                        && buffers@[j].commands@.len() == 0,
            decreases n - i,
        {
            buffers.push(CommandBuffer::new());
            i = i + 1;
        }
        Ok(FrameSlotPool { buffers })
    }

    /// The number of slots.
    pub fn len(&self) -> (r: usize)
        ensures
            r == self.slot_count(),
    {
        self.buffers.len()
    }

    /// The image-acquired signal of slot `i`; handles are identified by
    /// their slot index.
    pub fn acquire_signal(&self, i: usize) -> (r: usize)
        requires
            0 <= i < self.slot_count(),
        ensures
            r == i,
    {
        i
    }

    /// The render-finished signal of slot `i`.
    pub fn finished_signal(&self, i: usize) -> (r: usize)
        requires
            0 <= i < self.slot_count(),
        ensures
            r == i,
    {
        i
    }

    /// The submission-complete fence of slot `i`.
    pub fn fence(&self, i: usize) -> (r: usize)
        requires
            0 <= i < self.slot_count(),
        ensures
            r == i,
    {
        i
    }

    /// Read slot `i`'s command buffer.
    pub fn command_buffer(&self, i: usize) -> (r: &CommandBuffer)
        requires
            0 <= i < self.slot_count(),
        ensures
            *r == self.buffers@[i as int],
    {
        &self.buffers[i]
    }

    /// The bookkeeping of the blocking fence wait on slot `i`, once the
    /// device has reported the fence signaled: the fence is reset and the
    /// slot's buffer is no longer referenced by any submission. This is
    /// the single point that bounds how far ahead of the device the
    /// processor may run.
    pub fn wait_and_reset(&mut self, i: usize)
        requires
            0 <= i < old(self).slot_count(),
        ensures
            final(self).slot_count() == old(self).slot_count(),
            old(self).buffers@[i as int].state == BufferState::Pending ==> final(self).buffers@[
                i as int
            ].state == BufferState::Executable && final(self).buffers@[i as int].commands@ == old(
                self,
            ).buffers@[i as int].commands@,
            old(self).buffers@[i as int].state != BufferState::Pending ==> final(self).buffers@[
                i as int
            ] == old(self).buffers@[i as int],
            forall|j: int|
                0 <= j < old(self).slot_count() && j != i ==> final(self).buffers@[j] == old(
                    self,
                ).buffers@[j],
    {
        let b = &mut self.buffers[i];
        b.mark_complete();
    }

    /// Record one frame's command sequence into slot `i`'s buffer. Valid
    /// for re-recording only after `wait_and_reset(i)` has completed;
    /// otherwise refused with the buffer untouched.
    pub fn record_slot(
        &mut self,
        i: usize,
        extent: Extent2D,
        pipeline: PipelineId,
        draw: DrawIntent,
        clear: ClearColor,
    ) -> (r: Result<(), RecordError>)
        requires
            0 <= i < old(self).slot_count(),
        ensures
            final(self).slot_count() == old(self).slot_count(),
            forall|j: int|
                0 <= j < old(self).slot_count() && j != i ==> final(self).buffers@[j] == old(
                    self,
                ).buffers@[j],
            old(self).buffers@[i as int].state == BufferState::Pending ==> r == Err::<
                (),
                RecordError,
            >(RecordError::BufferInFlight) && final(self).buffers@[i as int] == old(self).buffers@[
                i as int
            ],
            (old(self).buffers@[i as int].state == BufferState::Recording || old(
                self,
            ).buffers@[i as int].state == BufferState::RecordingInPass) ==> r == Err::<
                (),
                RecordError,
            >(RecordError::AlreadyRecording) && final(self).buffers@[i as int] == old(
                self,
            ).buffers@[i as int],
            (old(self).buffers@[i as int].state == BufferState::Initial || old(
                self,
            ).buffers@[i as int].state == BufferState::Executable) ==> r == Ok::<(), RecordError>(
                (),
            ) && final(self).buffers@[i as int].state == BufferState::Executable
                && final(self).buffers@[i as int].commands@ == frame_commands(
                extent,
                pipeline,
                draw,
                clear,
            ),
    {
        let b = &mut self.buffers[i];
        b.record_frame(extent, pipeline, draw, clear)
    }

    /// Hand slot `i`'s recorded buffer to a submission guarded by the
    /// slot's fence.
    pub fn mark_submitted(&mut self, i: usize) -> (r: Result<(), RecordError>)
        requires
            0 <= i < old(self).slot_count(),
        ensures
            final(self).slot_count() == old(self).slot_count(),
            forall|j: int|
                0 <= j < old(self).slot_count() && j != i ==> final(self).buffers@[j] == old(
                    self,
                ).buffers@[j],
            old(self).buffers@[i as int].state == BufferState::Executable ==> r == Ok::<
                (),
                RecordError,
            >(()) && final(self).buffers@[i as int].state == BufferState::Pending
                && final(self).buffers@[i as int].commands@ == old(self).buffers@[
                i as int
            ].commands@,
            old(self).buffers@[i as int].state != BufferState::Executable ==> r == Err::<
                (),
                RecordError,
            >(RecordError::NotRecording) && final(self).buffers@[i as int] == old(self).buffers@[
                i as int
            ],
    {
        let b = &mut self.buffers[i];
        b.mark_submitted()
    }

    /// No more submissions than slots can ever be outstanding: each slot
    /// carries at most one.
    pub proof fn lemma_pending_bounded(self)
        ensures
            self.pending_count() <= self.slot_count(),
    {
        lemma_count_true_bounded(self.pending_flags());
    }
}

} // verus!
