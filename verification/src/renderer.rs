//! The frame orchestrator: the control loop that sequences acquire,
//! fence wait, record, submit and present, owns the monotonic frame
//! counter, and selects the active frame slot as counter modulo the slot
//! count. The device work itself happens outside; the orchestrator is the
//! decision machine, stepped either against the mock device or, event by
//! event, by an embedding program driving real hardware.

use vstd::prelude::*;
use crate::mock::AcquireOutcome;
use crate::mock::MockDevice;
use crate::mock::PresentOutcome;
use crate::mock::ScriptedFailure;
use crate::pass::StageMask;
use crate::recorder::BufferState;
use crate::recorder::ClearColor;
use crate::recorder::DrawIntent;
use crate::recorder::PipelineId;
use crate::recorder::frame_commands;
use crate::slots::FrameSlotPool;
use crate::surface::RenderTargetSet;

verus! {

/// Where the orchestrator stands in the per-frame cycle.
#[derive(Clone, Copy, PartialEq, Eq, Structural, Debug)]
pub enum Phase {
    /// Between frames.
    Idle,
    /// An image has been requested; the outcome has not arrived.
    Acquiring,
    /// An image is acquired; the slot's fence wait has not completed.
    AwaitingFence { image_index: u32, suboptimal: bool },
    /// The fence wait completed; the slot's buffer may be recorded.
    ReadyToRecord { image_index: u32, suboptimal: bool },
    /// The frame is submitted; presentation has not completed.
    Submitted { image_index: u32, suboptimal: bool },
}

/// Why a frame could not be completed.
#[derive(Clone, Copy, PartialEq, Eq, Structural, Debug)]
pub enum FrameError {
    /// The slot's fence is not signaled yet: the wait would block. The
    /// frame stays acquired and the call can be retried once the fence
    /// signals.
    WouldBlock,
    /// The target set no longer matches the surface; fatal here, the host
    /// must tear down (a production loop would rebuild and retry).
    OutOfDate,
    /// A hard device error; fatal, the host must tear down.
    DeviceLost,
}

/// What one completed frame reports.
#[derive(Clone, Copy, PartialEq, Eq, Structural, Debug)]
pub struct FrameReport {
    /// The frame slot used: counter modulo the slot count.
    pub slot: usize,
    /// The presentable image drawn into.
    pub image_index: u32,
    /// The acquisition reported a non-fatal suboptimal condition.
    pub suboptimal_acquire: bool,
    /// The presentation reported a non-fatal suboptimal condition.
    pub suboptimal_present: bool,
}

/// The submission the orchestrator hands to the queue: wait on the slot's
/// image-acquired signal at the color-output stage, run the slot's buffer,
/// signal the slot's render-finished signal, and signal the slot's fence
/// on completion. Handles are identified by slot index.
#[derive(Clone, Copy, PartialEq, Eq, Structural, Debug)]
pub struct SubmitRequest {
    pub buffer_slot: usize,
    pub wait_signal: usize,
    pub wait_stage: StageMask,
    pub signal: usize,
    pub fence: usize,
}

/// The presentation request: show the acquired image once the slot's
/// render-finished signal fires.
#[derive(Clone, Copy, PartialEq, Eq, Structural, Debug)]
pub struct PresentRequest {
    pub image_index: u32,
    pub wait_signal: usize,
}

/// The frame orchestrator.
#[derive(Clone, PartialEq, Eq, Debug)]
pub struct Renderer {
    /// Completed presentation requests so far; monotonically increasing.
    pub counter: u64,
    /// The fixed ring of frame slots.
    pub pool: FrameSlotPool,
    /// The negotiated render target configuration.
    pub targets: RenderTargetSet,
    /// The pipeline every frame binds.
    pub pipeline: PipelineId,
    /// The per-frame draw intent.
    pub draw: DrawIntent,
    /// The fixed clear value.
    pub clear: ClearColor,
    /// Where the current frame stands.
    pub phase: Phase,
}

impl Renderer {
    /// The fixed number of frame slots.
    pub open spec fn slot_count(self) -> int {
        self.pool.slot_count()
    }

    /// The active slot: counter modulo the slot count.
    pub open spec fn current_slot_spec(self) -> int {
        self.counter as int % self.slot_count()
    }

    /// The image index of the frame in progress.
    pub open spec fn phase_image(self) -> u32 {
        match self.phase {
            Phase::AwaitingFence { image_index, .. } => image_index,
            Phase::ReadyToRecord { image_index, .. } => image_index,
            Phase::Submitted { image_index, .. } => image_index,
            _ => 0,
        }
    }

    /// Well-formedness: at least one slot and one image; a frame in
    /// progress names a real image; no buffer is left mid-recording
    /// between steps; the slot about to be recorded has completed its
    /// fence wait; a submitted frame's slot is pending.
    pub open spec fn wf(self) -> bool {
        &&& self.pool.wf()
        &&& self.targets.image_count >= 1
        &&& (self.phase is AwaitingFence || self.phase is ReadyToRecord || self.phase
            is Submitted) ==> self.phase_image() < self.targets.image_count
        &&& forall|j: int|
            0 <= j < self.slot_count() ==> #[trigger] self.pool.buffers@[j].state
                != BufferState::Recording && self.pool.buffers@[j].state
                != BufferState::RecordingInPass
        &&& self.phase is ReadyToRecord ==> self.pool.buffers@[self.current_slot_spec()].state
            != BufferState::Pending
        &&& self.phase is Submitted ==> self.pool.buffers@[self.current_slot_spec()].state
            == BufferState::Pending
    }

    /// Assemble an orchestrator over a negotiated target set, a slot pool,
    /// and the frame's fixed draw configuration.
    pub fn new(
        pool: FrameSlotPool,
        targets: RenderTargetSet,
        pipeline: PipelineId,
        draw: DrawIntent,
        clear: ClearColor,
    ) -> (r: Renderer)
        requires
            pool.wf(),
            targets.image_count >= 1,
            forall|j: int|
                0 <= j < pool.slot_count() ==> #[trigger] pool.buffers@[j].state
                    == BufferState::Initial,
        ensures
            r == (Renderer { counter: 0, pool, targets, pipeline, draw, clear, phase: Phase::Idle }),
            r.wf(),
    {
        Renderer { counter: 0, pool, targets, pipeline, draw, clear, phase: Phase::Idle }
    }

    /// The active slot, counter modulo slot count.
    pub fn current_slot(&self) -> (r: usize)
        requires
            self.wf(),
        ensures
            r as int == self.current_slot_spec(),
            (r as int) < self.slot_count(),
    {
        let n: u64 = self.pool.len() as u64;
        let r = (self.counter % n) as usize;
        proof {
            assert(self.counter % n < n);
        }
        r
    }

    /// Start a frame: request the next presentable image, to be signaled
    /// on the current slot's image-acquired signal. Returns that slot.
    pub fn begin_acquire(&mut self) -> (slot: usize)
        requires
            old(self).wf(),
            old(self).phase == Phase::Idle,
        ensures
            *final(self) == (Renderer { phase: Phase::Acquiring, ..*old(self) }),
            final(self).wf(),
            slot as int == old(self).current_slot_spec(),
    {
        let slot = self.current_slot();
        self.phase = Phase::Acquiring;
        slot
    }

    /// Take the acquisition outcome. Success moves the frame toward the
    /// fence wait; out-of-date and device errors abandon the frame and
    /// are fatal to the loop.
    pub fn finish_acquire(&mut self, outcome: AcquireOutcome) -> (r: Result<(), FrameError>)
        requires
            old(self).wf(),
            old(self).phase == Phase::Acquiring,
            outcome matches AcquireOutcome::Success { image_index, .. } ==> image_index < old(
                self,
            ).targets.image_count,
        ensures
            final(self).wf(),
            outcome matches AcquireOutcome::Success { image_index, suboptimal } ==> r == Ok::<
                (),
                FrameError,
            >(()) && *final(self) == (Renderer {
                phase: Phase::AwaitingFence { image_index, suboptimal },
                ..*old(self)
            }),
            outcome == AcquireOutcome::OutOfDate ==> r == Err::<(), FrameError>(
                FrameError::OutOfDate,
            ) && *final(self) == (Renderer { phase: Phase::Idle, ..*old(self) }),
            outcome == AcquireOutcome::DeviceError ==> r == Err::<(), FrameError>(
                FrameError::DeviceLost,
            ) && *final(self) == (Renderer { phase: Phase::Idle, ..*old(self) }),
    {
        match outcome {
            AcquireOutcome::Success { image_index, suboptimal } => {
                self.phase = Phase::AwaitingFence { image_index, suboptimal };
                Ok(())
            },
            AcquireOutcome::OutOfDate => {
                self.phase = Phase::Idle;
                Err(FrameError::OutOfDate)
            },
            AcquireOutcome::DeviceError => {
                self.phase = Phase::Idle;
                Err(FrameError::DeviceLost)
            },
        }
    }

    /// The fence the frame must wait on before its slot can be reused:
    /// the current slot's fence.
    pub fn fence_to_wait(&self) -> (r: usize)
        requires
            self.wf(),
            self.phase is AwaitingFence,
        ensures
            r as int == self.current_slot_spec(),
            (r as int) < self.slot_count(),
    {
        self.current_slot()
    }

    /// The blocking fence wait on the current slot has completed and the
    /// fence is reset: the slot's buffer is no longer referenced by any
    /// submission, and recording may begin.
    pub fn on_fence_ready(&mut self)
        requires
            old(self).wf(),
            old(self).phase is AwaitingFence,
        ensures
            final(self).wf(),
            final(self).phase == (Phase::ReadyToRecord {
                image_index: old(self).phase_image(),
                suboptimal: old(self).phase->AwaitingFence_suboptimal,
            }),
            final(self).counter == old(self).counter,
            final(self).targets == old(self).targets,
            final(self).pipeline == old(self).pipeline,
            final(self).draw == old(self).draw,
            final(self).clear == old(self).clear,
            final(self).pool.slot_count() == old(self).pool.slot_count(),
            forall|j: int|
                0 <= j < old(self).slot_count() && j != old(self).current_slot_spec()
                    ==> final(self).pool.buffers@[j] == old(self).pool.buffers@[j],
            final(self).pool.buffers@[old(self).current_slot_spec()].state != BufferState::Pending,
            final(self).pool.buffers@[old(self).current_slot_spec()].commands@ == old(
                self,
            ).pool.buffers@[old(self).current_slot_spec()].commands@,
    {
        let slot = self.current_slot();
        self.pool.wait_and_reset(slot);
        match self.phase {
            Phase::AwaitingFence { image_index, suboptimal } => {
                self.phase = Phase::ReadyToRecord { image_index, suboptimal };
            },
            _ => {},
        }
    }

    /// Record the current slot's buffer for this frame and hand it to a
    /// submission guarded by the slot's signals and fence. The returned
    /// request carries the ordering guarantee: color-output work waits on
    /// the image-acquired signal, completion signals render-finished and
    /// the slot's fence.
    pub fn record_and_submit(&mut self) -> (req: SubmitRequest)
        requires
            old(self).wf(),
            old(self).phase is ReadyToRecord,
        ensures
            final(self).wf(),
            req == (SubmitRequest {
                buffer_slot: old(self).current_slot_spec() as usize,
                wait_signal: old(self).current_slot_spec() as usize,
                wait_stage: StageMask::ColorOutput,
                signal: old(self).current_slot_spec() as usize,
                fence: old(self).current_slot_spec() as usize,
            }),
            final(self).phase == (Phase::Submitted {
                image_index: old(self).phase_image(),
                suboptimal: old(self).phase->ReadyToRecord_suboptimal,
            }),
            final(self).counter == old(self).counter,
            final(self).targets == old(self).targets,
            final(self).pipeline == old(self).pipeline,
            final(self).draw == old(self).draw,
            final(self).clear == old(self).clear,
            final(self).pool.slot_count() == old(self).pool.slot_count(),
            forall|j: int|
                0 <= j < old(self).slot_count() && j != old(self).current_slot_spec()
                    ==> final(self).pool.buffers@[j] == old(self).pool.buffers@[j],
            final(self).pool.buffers@[old(self).current_slot_spec()].state == BufferState::Pending,
            final(self).pool.buffers@[old(self).current_slot_spec()].commands@ == frame_commands(
                old(self).targets.extent,
                old(self).pipeline,
                old(self).draw,
                old(self).clear,
            ),
    {
        let slot = self.current_slot();
        let _ = self.pool.record_slot(slot, self.targets.extent, self.pipeline, self.draw, self.clear);
        let _ = self.pool.mark_submitted(slot);
        match self.phase {
            Phase::ReadyToRecord { image_index, suboptimal } => {
                self.phase = Phase::Submitted { image_index, suboptimal };
            },
            _ => {},
        }
        SubmitRequest {
            buffer_slot: slot,
            wait_signal: slot,
            wait_stage: StageMask::ColorOutput,
            signal: slot,
            fence: slot,
        }
    }

    /// The presentation request for the submitted frame: show the
    /// acquired image once the slot's render-finished signal fires.
    pub fn present_request(&self) -> (req: PresentRequest)
        requires
            self.wf(),
            self.phase is Submitted,
        ensures
            req == (PresentRequest {
                image_index: self.phase_image(),
                wait_signal: self.current_slot_spec() as usize,
            }),
    {
        let slot = self.current_slot();
        let image_index = match self.phase {
            Phase::Submitted { image_index, .. } => image_index,
            _ => 0,
        };
        PresentRequest { image_index, wait_signal: slot }
    }

    /// Take the presentation outcome. On any non-fatal outcome the frame
    /// counter advances by exactly one and the cycle returns to idle; a
    /// suboptimal report is accepted and rendering continues unchanged.
    /// Fatal outcomes abandon the frame without advancing the counter.
    pub fn finish_present(&mut self, outcome: PresentOutcome) -> (r: Result<bool, FrameError>)
        requires
            old(self).wf(),
            old(self).phase is Submitted,
            old(self).counter < u64::MAX,
        ensures
            final(self).wf(),
            outcome matches PresentOutcome::Success { suboptimal } ==> r == Ok::<bool, FrameError>(
                suboptimal,
            ) && *final(self) == (Renderer {
                counter: (old(self).counter + 1) as u64,
                phase: Phase::Idle,
                ..*old(self)
            }),
            outcome == PresentOutcome::OutOfDate ==> r == Err::<bool, FrameError>(
                FrameError::OutOfDate,
            ) && *final(self) == (Renderer { phase: Phase::Idle, ..*old(self) }),
            outcome == PresentOutcome::DeviceError ==> r == Err::<bool, FrameError>(
                FrameError::DeviceLost,
            ) && *final(self) == (Renderer { phase: Phase::Idle, ..*old(self) }),
    {
        match outcome {
            PresentOutcome::Success { suboptimal } => {
                self.counter = self.counter + 1;
                self.phase = Phase::Idle;
                Ok(suboptimal)
            },
            PresentOutcome::OutOfDate => {
                self.phase = Phase::Idle;
                Err(FrameError::OutOfDate)
            },
            PresentOutcome::DeviceError => {
                self.phase = Phase::Idle;
                Err(FrameError::DeviceLost)
            },
        }
    }

    /// Drive one full redraw against the mock device: acquire (unless
    /// resuming a frame blocked on its fence), wait on the current slot's
    /// fence, record, submit, present, advance. Completes, advancing the
    /// counter by exactly one, if and only if no fatal outcome is
    /// scripted and the slot's fence is already signaled; an unsignaled
    /// fence returns the blocked marker with the frame left acquired, to
    /// be retried once the test signals the fence.
    pub fn on_redraw(&mut self, dev: &mut MockDevice) -> (r: Result<FrameReport, FrameError>)
        requires
            old(self).wf(),
            old(self).phase is Idle || old(self).phase is AwaitingFence,
            old(self).counter < u64::MAX,
            old(dev).fences@.len() == old(self).pool.slot_count(),
            old(dev).image_count == old(self).targets.image_count,
            old(dev).next_image < old(dev).image_count,
        ensures
            final(self).wf(),
            final(self).phase is Idle || final(self).phase is AwaitingFence,
            final(self).pool.slot_count() == old(self).pool.slot_count(),
            final(self).targets == old(self).targets,
            final(self).pipeline == old(self).pipeline,
            final(self).draw == old(self).draw,
            final(self).clear == old(self).clear,
            final(dev).fences@.len() == old(dev).fences@.len(),
            final(dev).image_count == old(dev).image_count,
            final(dev).next_image < final(dev).image_count,
            final(dev).auto_complete == old(dev).auto_complete,
            final(dev).fail_acquire == old(dev).fail_acquire,
            final(dev).fail_present == old(dev).fail_present,
            final(dev).suboptimal_acquire == old(dev).suboptimal_acquire,
            final(dev).suboptimal_present == old(dev).suboptimal_present,
            (r is Ok) <==> ((old(self).phase is AwaitingFence || old(dev).fail_acquire is None)
                && old(dev).fences@[old(self).current_slot_spec()] == true && old(
                dev,
            ).fail_present is None),
            (r == Err::<FrameReport, FrameError>(FrameError::WouldBlock)) <==> ((old(self).phase
                is AwaitingFence || old(dev).fail_acquire is None) && old(dev).fences@[old(
                self,
            ).current_slot_spec()] == false),
            (r == Err::<FrameReport, FrameError>(FrameError::OutOfDate)) <==> ((old(self).phase
                is Idle && old(dev).fail_acquire == Some(ScriptedFailure::OutOfDate)) || ((old(
                self,
            ).phase is AwaitingFence || old(dev).fail_acquire is None) && old(dev).fences@[old(
                self,
            ).current_slot_spec()] == true && old(dev).fail_present == Some(
                ScriptedFailure::OutOfDate,
            ))),
            (r == Err::<FrameReport, FrameError>(FrameError::DeviceLost)) <==> ((old(self).phase
                is Idle && old(dev).fail_acquire == Some(ScriptedFailure::DeviceError)) || ((old(
                self,
            ).phase is AwaitingFence || old(dev).fail_acquire is None) && old(dev).fences@[old(
                self,
            ).current_slot_spec()] == true && old(dev).fail_present == Some(
                ScriptedFailure::DeviceError,
            ))),
            r is Ok ==> final(self).counter == old(self).counter + 1 && final(self).phase
                == Phase::Idle,
            !(r is Ok) ==> final(self).counter == old(self).counter,
            r matches Ok(rep) ==> {
                &&& rep.slot as int == old(self).current_slot_spec()
                &&& (old(self).phase is Idle ==> rep.image_index == old(dev).next_image
                    && rep.suboptimal_acquire == old(dev).suboptimal_acquire)
                &&& (old(self).phase is AwaitingFence ==> rep.image_index == old(
                    self,
                ).phase_image())
                &&& rep.suboptimal_present == old(dev).suboptimal_present
                &&& final(self).pool.buffers@[rep.slot as int].state == BufferState::Pending
                &&& final(self).pool.buffers@[rep.slot as int].commands@ == frame_commands(
                    old(self).targets.extent,
                    old(self).pipeline,
                    old(self).draw,
                    old(self).clear,
                )
                &&& final(dev).fences@ == old(dev).fences@.update(
                    rep.slot as int,
                    old(dev).auto_complete,
                )
                &&& final(dev).idle_done == false
            },
            r == Err::<FrameReport, FrameError>(FrameError::WouldBlock) ==> final(self).phase
                is AwaitingFence && final(self).pool == old(self).pool && final(dev).fences@ == old(
                dev,
            ).fences@ && final(dev).idle_done == old(dev).idle_done,
            (r == Err::<FrameReport, FrameError>(FrameError::OutOfDate) || r == Err::<
                FrameReport,
                FrameError,
            >(FrameError::DeviceLost)) ==> final(self).phase == Phase::Idle,
    {
        if self.phase == Phase::Idle {
            let _ = self.begin_acquire();
            let outcome = dev.acquire();
            if let Err(e) = self.finish_acquire(outcome) {
                return Err(e);
            }
        }
        let slot = self.fence_to_wait();
        if !dev.fence_signaled(slot) {
            return Err(FrameError::WouldBlock);
        }
        dev.reset_fence(slot);
        self.on_fence_ready();
        let req = self.record_and_submit();
        dev.submit(req.fence);
        let preq = self.present_request();
        let suboptimal_acquire = match self.phase {
            Phase::Submitted { suboptimal, .. } => suboptimal,
            _ => false,
        };
        let outcome = dev.present();
        match self.finish_present(outcome) {
            Ok(suboptimal_present) => {
                proof {
                    assert(dev.fences@ =~= old(dev).fences@.update(
                        slot as int,
                        old(dev).auto_complete,
                    ));
                }
                Ok(
                    FrameReport {
                        slot,
                        image_index: preq.image_index,
                        suboptimal_acquire,
                        suboptimal_present,
                    },
                )
            },
            Err(e) => Err(e),
        }
    }

    /// The shutdown path: run the device-idle barrier, complete every
    /// slot's fence wait so no buffer is left referenced, and return to
    /// idle. Only after this may the pool be destroyed.
    pub fn on_shutdown(&mut self, dev: &mut MockDevice)
        requires
            old(self).wf(),
            old(dev).fences@.len() == old(self).pool.slot_count(),
        ensures
            final(self).wf(),
            final(self).phase == Phase::Idle,
            final(self).counter == old(self).counter,
            final(self).targets == old(self).targets,
            final(self).pool.slot_count() == old(self).pool.slot_count(),
            forall|j: int|
                0 <= j < final(self).pool.slot_count() ==> final(self).pool.buffers@[j].state
                    != BufferState::Pending,
            final(dev).idle_done == true,
            final(dev).outstanding() == 0,
            final(dev).fences@.len() == old(dev).fences@.len(),
            final(dev).image_count == old(dev).image_count,
            final(dev).next_image == old(dev).next_image,
    {
        dev.wait_idle();
        let n: usize = self.pool.len();
        let ghost snap = *self;
        let mut i: usize = 0;
        while i < n
            invariant
                n == self.pool.slot_count(),
                0 <= i <= n,
                self.counter == snap.counter,
                self.targets == snap.targets,
                self.pipeline == snap.pipeline,
                self.draw == snap.draw,
                self.clear == snap.clear,
                self.phase == snap.phase,
                self.pool.slot_count() == snap.pool.slot_count(),
                forall|j: int|
                    0 <= j < n ==> #[trigger] self.pool.buffers@[j].state
                        != BufferState::Recording && self.pool.buffers@[j].state
                        != BufferState::RecordingInPass,
                forall|j: int|
                    0 <= j < i ==> #[trigger] self.pool.buffers@[j].state != BufferState::Pending,
            decreases n - i,
        {
            proof {
                assert(self.pool.buffers@[i as int].state != BufferState::Recording);
            }
            self.pool.wait_and_reset(i);
            i = i + 1;
        }
        self.phase = Phase::Idle;
    }

    /// No more submissions than frame slots can be outstanding at any
    /// instant: the device has one completion fence per slot and each
    /// slot's buffer carries at most one pending submission, so the
    /// fixed ring bounds how far the processor runs ahead of the device.
    pub proof fn lemma_in_flight_bounded(self, dev: MockDevice)
        requires
            dev.fences@.len() == self.pool.slot_count(),
        ensures
            dev.outstanding() <= self.pool.slot_count(),
            self.pool.pending_count() <= self.pool.slot_count(),
    {
        crate::slots::lemma_count_true_bounded(dev.fences@.map_values(|b: bool| !b));
        self.pool.lemma_pending_bounded();
    }
}

} // verus!
