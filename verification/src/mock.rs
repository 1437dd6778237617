//! A mock device: the same event surface a real device and presentation
//! engine offer the frame loop — fence state, submission, the device-idle
//! barrier, image acquisition and presentation — with every outcome
//! scripted by plain fields, so the loop's choreography can be exercised
//! and its invariants stated without hardware.

use vstd::prelude::*;
use crate::slots::count_true;

verus! {

/// The outcome of requesting the next presentable image.
#[derive(Clone, Copy, PartialEq, Eq, Structural, Debug)]
pub enum AcquireOutcome {
    /// An image is available; its signal fires when it truly is.
    /// `suboptimal` reports a non-fatal mismatch with the surface.
    Success { image_index: u32, suboptimal: bool },
    /// The target set no longer matches the surface.
    OutOfDate,
    /// A hard device error.
    DeviceError,
}

/// The outcome of requesting presentation of a rendered image.
#[derive(Clone, Copy, PartialEq, Eq, Structural, Debug)]
pub enum PresentOutcome {
    /// Presentation was queued. `suboptimal` reports a non-fatal mismatch.
    Success { suboptimal: bool },
    /// The target set no longer matches the surface.
    OutOfDate,
    /// A hard device error.
    DeviceError,
}

/// A forced failure a test scripts into the mock.
#[derive(Clone, Copy, PartialEq, Eq, Structural, Debug)]
pub enum ScriptedFailure {
    OutOfDate,
    DeviceError,
}

/// The mock device. Fence `i` guards slot `i`'s submission; a `true`
/// entry means signaled. Fences are created signaled, as a frame loop
/// expects of fresh submission-complete fences.
#[derive(Clone, PartialEq, Eq, Debug)]
pub struct MockDevice {
    /// One fence per frame slot; `true` is signaled.
    pub fences: Vec<bool>,
    /// When set, every submission completes at once (a device faster than
    /// the processor); when clear, work completes only when the test
    /// signals the fence (a device that delays).
    pub auto_complete: bool,
    /// Whether a device-idle barrier has run since the last submission.
    pub idle_done: bool,
    /// The number of images in the presentable ring.
    pub image_count: u32,
    /// The image index the next acquisition hands out.
    pub next_image: u32,
    /// Report the next acquisitions as suboptimal.
    pub suboptimal_acquire: bool,
    /// Report the next presentations as suboptimal.
    pub suboptimal_present: bool,
    /// Force the next acquisition to fail.
    pub fail_acquire: Option<ScriptedFailure>,
    /// Force the next presentation to fail.
    pub fail_present: Option<ScriptedFailure>,
}

/// The acquisition outcome a mock in the given state produces.
pub open spec fn spec_acquire_outcome(d: MockDevice) -> AcquireOutcome {
    match d.fail_acquire {
        Some(ScriptedFailure::OutOfDate) => AcquireOutcome::OutOfDate,
        Some(ScriptedFailure::DeviceError) => AcquireOutcome::DeviceError,
        None => AcquireOutcome::Success {
            image_index: d.next_image,
            suboptimal: d.suboptimal_acquire,
        },
    }
}

/// The presentation outcome a mock in the given state produces.
pub open spec fn spec_present_outcome(d: MockDevice) -> PresentOutcome {
    match d.fail_present {
        Some(ScriptedFailure::OutOfDate) => PresentOutcome::OutOfDate,
        Some(ScriptedFailure::DeviceError) => PresentOutcome::DeviceError,
        None => PresentOutcome::Success { suboptimal: d.suboptimal_present },
    }
}

impl MockDevice {
    /// How many submissions are outstanding: fences not yet signaled.
    pub open spec fn outstanding(self) -> int {
        count_true(self.fences@.map_values(|b: bool| !b))
    }

    /// A mock in its starting state: every fence signaled, nothing
    /// outstanding, images handed out round-robin from zero.
    pub fn new(slot_count: usize, image_count: u32) -> (r: MockDevice)
        requires
            image_count >= 1,
        ensures
            r.fences@.len() == slot_count,
            forall|i: int| 0 <= i < slot_count ==> r.fences@[i] == true,
            r.auto_complete == false,
            r.idle_done == true,
            r.image_count == image_count,
            r.next_image == 0,
            r.suboptimal_acquire == false,
            r.suboptimal_present == false,
            r.fail_acquire is None,
            r.fail_present is None,
    {
        let mut fences: Vec<bool> = Vec::new();
        let mut i: usize = 0;
        while i < slot_count
            invariant
                0 <= i <= slot_count,
                fences@.len() == i,
                forall|j: int| 0 <= j < i ==> fences@[j] == true,
            decreases slot_count - i,
        {
            fences.push(true);
            i = i + 1;
        }
        MockDevice {
            fences,
            auto_complete: false,
            idle_done: true,
            image_count,
            next_image: 0,
            suboptimal_acquire: false,
            suboptimal_present: false,
            fail_acquire: None,
            fail_present: None,
        }
    }

    /// Whether fence `i` is signaled.
    pub fn fence_signaled(&self, i: usize) -> (r: bool)
        requires
            0 <= i < self.fences@.len(),
        ensures
            r == self.fences@[i as int],
    {
        self.fences[i]
    }

    /// Reset fence `i` to the unsignaled state.
    pub fn reset_fence(&mut self, i: usize)
        requires
            0 <= i < old(self).fences@.len(),
        ensures
            final(self).fences@ == old(self).fences@.update(i as int, false),
            *final(self) == (MockDevice { fences: final(self).fences, ..*old(self) }),
    {
        let f = &mut self.fences[i];
        *f = false;
    }

    /// Accept a submission guarded by fence `i`. The fence must have been
    /// reset first. With `auto_complete` the work finishes at once;
    /// either way the device is no longer idle-barriered.
    pub fn submit(&mut self, i: usize)
        requires
            0 <= i < old(self).fences@.len(),
            old(self).fences@[i as int] == false,
        ensures
            old(self).auto_complete ==> final(self).fences@ == old(self).fences@.update(
                i as int,
                true,
            ),
            !old(self).auto_complete ==> final(self).fences@ == old(self).fences@,
            final(self).idle_done == false,
            *final(self) == (MockDevice {
                fences: final(self).fences,
                idle_done: false,
                ..*old(self)
            }),
    {
        self.idle_done = false;
        if self.auto_complete {
            let f = &mut self.fences[i];
            *f = true;
        } else {
            proof {
                assert(self.fences@ =~= old(self).fences@);
            }
        }
    }

    /// The device completes the work guarding fence `i`: the test's hand
    /// on the simulated device's clock.
    pub fn signal_fence(&mut self, i: usize)
        requires
            0 <= i < old(self).fences@.len(),
        ensures
            final(self).fences@ == old(self).fences@.update(i as int, true),
            *final(self) == (MockDevice { fences: final(self).fences, ..*old(self) }),
    {
        let f = &mut self.fences[i];
        *f = true;
    }

    /// The device-idle barrier: block until all outstanding work is done.
    /// Afterwards every fence is signaled, nothing is outstanding, and
    /// teardown is permitted.
    pub fn wait_idle(&mut self)
        ensures
            final(self).fences@.len() == old(self).fences@.len(),
            forall|i: int| 0 <= i < final(self).fences@.len() ==> final(self).fences@[i] == true,
            final(self).idle_done == true,
            final(self).outstanding() == 0,
            *final(self) == (MockDevice {
                fences: final(self).fences,
                idle_done: true,
                ..*old(self)
            }),
    {
        let n: usize = self.fences.len();
        let mut i: usize = 0;
        while i < n
            invariant
                n == self.fences@.len(),
                0 <= i <= n,
                forall|j: int| 0 <= j < i ==> self.fences@[j] == true,
                *self == (MockDevice { fences: self.fences, ..*old(self) }),
            decreases n - i,
        {
            let f = &mut self.fences[i];
            *f = true;
            i = i + 1;
        }
        self.idle_done = true;
        proof {
            lemma_count_true_none(self.fences@.map_values(|b: bool| !b));
        }
    }

    /// Request the next presentable image. A scripted failure wins;
    /// otherwise the mock hands out image indices round-robin and reports
    /// the scripted suboptimal flag.
    pub fn acquire(&mut self) -> (r: AcquireOutcome)
        requires
            old(self).image_count >= 1,
            old(self).next_image < old(self).image_count,
        ensures
            r == spec_acquire_outcome(*old(self)),
            old(self).fail_acquire is Some ==> *final(self) == *old(self),
            old(self).fail_acquire is None ==> {
                &&& final(self).next_image == ((old(self).next_image + 1) as u32) % old(
                    self,
                ).image_count
                &&& *final(self) == (MockDevice {
                    next_image: final(self).next_image,
                    ..*old(self)
                })
            },
    {
        match self.fail_acquire {
            Some(ScriptedFailure::OutOfDate) => AcquireOutcome::OutOfDate,
            Some(ScriptedFailure::DeviceError) => AcquireOutcome::DeviceError,
            None => {
                let image_index = self.next_image;
                self.next_image = (self.next_image + 1) % self.image_count;
                AcquireOutcome::Success { image_index, suboptimal: self.suboptimal_acquire }
            },
        }
    }

    /// Request presentation of a rendered image. A scripted failure wins;
    /// otherwise presentation is queued with the scripted suboptimal flag.
    pub fn present(&mut self) -> (r: PresentOutcome)
        ensures
            *final(self) == *old(self),
            r == spec_present_outcome(*old(self)),
    {
        match self.fail_present {
            Some(ScriptedFailure::OutOfDate) => PresentOutcome::OutOfDate,
            Some(ScriptedFailure::DeviceError) => PresentOutcome::DeviceError,
            None => PresentOutcome::Success { suboptimal: self.suboptimal_present },
        }
    }
}

/// A sequence of all-false flags counts to zero.
proof fn lemma_count_true_none(s: Seq<bool>)
    requires
        forall|i: int| 0 <= i < s.len() ==> s[i] == false,
    ensures
        count_true(s) == 0,
    decreases s.len(),
{
    if s.len() > 0 {
        lemma_count_true_none(s.drop_last());
    }
}

} // verus!
