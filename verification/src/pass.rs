//! The attachment/pass descriptor: how one generation of render targets is
//! loaded, written and transitioned during a draw, and the cross-pass
//! dependency that orders the first color write after image acquisition.

use vstd::prelude::*;
use crate::surface::SurfaceFormat;

verus! {

/// How an attachment's previous contents are treated at pass start.
#[derive(Clone, Copy, PartialEq, Eq, Structural, Debug)]
pub enum LoadOp {
    Clear,
    Load,
    DontCare,
}

/// Whether an attachment's contents survive past pass end.
#[derive(Clone, Copy, PartialEq, Eq, Structural, Debug)]
pub enum StoreOp {
    Store,
    DontCare,
}

/// The layouts an attachment moves through.
#[derive(Clone, Copy, PartialEq, Eq, Structural, Debug)]
pub enum ImageLayout {
    Undefined,
    ColorOutputOptimal,
    Presentable,
}

/// The pipeline stage a dependency names.
#[derive(Clone, Copy, PartialEq, Eq, Structural, Debug)]
pub enum StageMask {
    ColorOutput,
}

/// The memory access a dependency names.
#[derive(Clone, Copy, PartialEq, Eq, Structural, Debug)]
pub enum AccessMask {
    NoAccess,
    ColorWrite,
}

/// One color attachment's load/store behavior and layout transitions.
#[derive(Clone, Copy, PartialEq, Eq, Structural, Debug)]
pub struct AttachmentDescriptor {
    pub format: SurfaceFormat,
    pub load_op: LoadOp,
    pub store_op: StoreOp,
    pub initial_layout: ImageLayout,
    pub final_layout: ImageLayout,
}

/// The cross-pass dependency: color-output writes in this pass wait for the
/// color-output stage of any previous consumer of the attachment, closing
/// the gap between asynchronous image acquisition and the first write.
#[derive(Clone, Copy, PartialEq, Eq, Structural, Debug)]
pub struct PassDependency {
    /// The producer is outside this pass (any previous consumer).
    pub src_external: bool,
    pub src_stage: StageMask,
    pub src_access: AccessMask,
    pub dst_stage: StageMask,
    pub dst_access: AccessMask,
}

/// The pass built once per render-target-set generation: exactly one color
/// attachment plus the external dependency.
#[derive(Clone, Copy, PartialEq, Eq, Structural, Debug)]
pub struct PassDescriptor {
    pub attachment: AttachmentDescriptor,
    pub dependency: PassDependency,
}

/// The descriptor the policy builds for a target format.
pub open spec fn spec_pass_descriptor(format: SurfaceFormat) -> PassDescriptor {
    PassDescriptor {
        attachment: AttachmentDescriptor {
            format,
            load_op: LoadOp::Clear,
            store_op: StoreOp::Store,
            initial_layout: ImageLayout::Undefined,
            final_layout: ImageLayout::Presentable,
        },
        dependency: PassDependency {
            src_external: true,
            src_stage: StageMask::ColorOutput,
            src_access: AccessMask::NoAccess,
            dst_stage: StageMask::ColorOutput,
            dst_access: AccessMask::ColorWrite,
        },
    }
}

impl PassDescriptor {
    /// Whether the attachment this pass consumes leaves the pass in the
    /// presentable layout, as presentation requires.
    pub open spec fn leaves_presentable(self) -> bool {
        self.attachment.final_layout == ImageLayout::Presentable
    }

    /// Build the descriptor for one target format: cleared on load, stored
    /// on end, transitioned from undefined through color output to
    /// presentable, with the external color-output dependency.
    pub fn for_format(format: SurfaceFormat) -> (r: PassDescriptor)
        ensures
            r == spec_pass_descriptor(format),
            r.leaves_presentable(),
    {
        PassDescriptor {
            attachment: AttachmentDescriptor {
                format,
                load_op: LoadOp::Clear,
                store_op: StoreOp::Store,
                initial_layout: ImageLayout::Undefined,
                final_layout: ImageLayout::Presentable,
            },
            dependency: PassDependency {
                src_external: true,
                src_stage: StageMask::ColorOutput,
                src_access: AccessMask::NoAccess,
                dst_stage: StageMask::ColorOutput,
                dst_access: AccessMask::ColorWrite,
            },
        }
    }
}

} // verus!
