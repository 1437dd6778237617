//! Teardown: resources are destroyed in strict reverse-of-construction
//! order, and only after a device-idle barrier has drained all
//! outstanding work. Destroying earlier is a programming error the mock
//! device flags.

use vstd::prelude::*;
use crate::mock::MockDevice;
use crate::slots::FrameSlotPool;

verus! {

/// Why a destruction request was flagged.
#[derive(Clone, Copy, PartialEq, Eq, Structural, Debug)]
pub enum TeardownError {
    /// No device-idle barrier has run since the last submission; work may
    /// still reference the resources.
    IdleBarrierMissing,
}

/// The classes of device resources the frame core owns.
#[derive(Clone, Copy, PartialEq, Eq, Structural, Debug)]
pub enum ResourceKind {
    CommandBuffers,
    SyncPrimitives,
    TargetViews,
    TargetImages,
    PassDescriptor,
}

/// The order the resources are brought up in.
pub open spec fn construction_order() -> Seq<ResourceKind> {
    seq![
        ResourceKind::PassDescriptor,
        ResourceKind::TargetImages,
        ResourceKind::TargetViews,
        ResourceKind::SyncPrimitives,
        ResourceKind::CommandBuffers,
    ]
}

/// The order they must come down in.
pub open spec fn destruction_order() -> Seq<ResourceKind> {
    seq![
        ResourceKind::CommandBuffers,
        ResourceKind::SyncPrimitives,
        ResourceKind::TargetViews,
        ResourceKind::TargetImages,
        ResourceKind::PassDescriptor,
    ]
}

/// Destruction strictly reverses construction.
pub proof fn lemma_destruction_reverses_construction()
    ensures
        destruction_order() == construction_order().reverse(),
{
    assert(destruction_order() =~= construction_order().reverse());
}

/// The sequence a tearing-down owner must follow.
pub fn teardown_order() -> (r: Vec<ResourceKind>)
    ensures
        r@ == destruction_order(),
{
    let mut r: Vec<ResourceKind> = Vec::new();
    r.push(ResourceKind::CommandBuffers);
    r.push(ResourceKind::SyncPrimitives);
    r.push(ResourceKind::TargetViews);
    r.push(ResourceKind::TargetImages);
    r.push(ResourceKind::PassDescriptor);
    proof {
        assert(r@ =~= destruction_order());
    }
    r
}

/// Destroy the frame slot pool. Flagged as a precondition violation
/// exactly when no device-idle barrier has run since the last submission:
/// the device tracks that outstanding references may remain.
pub fn destroy_pool(pool: FrameSlotPool, dev: &MockDevice) -> (r: Result<(), TeardownError>)
    ensures
        (dev.idle_done == true) <==> (r == Ok::<(), TeardownError>(())),
        (dev.idle_done == false) <==> (r == Err::<(), TeardownError>(
            TeardownError::IdleBarrierMissing,
        )),
{
    if dev.idle_done {
        let _ = pool;
        Ok(())
    } else {
        Err(TeardownError::IdleBarrierMissing)
    }
}

} // verus!
