//! Frame synchronization and command-submission core for an explicit
//! graphics API renderer.
//!
//! The crate models the CPU-side decisions of a real-time render loop as
//! plain, verified logic: swapchain negotiation (format, present mode,
//! extent, image count), the fixed ring of per-frame synchronization slots,
//! the command-buffer recording protocol, and the frame orchestrator that
//! sequences acquire, fence wait, record, submit and present. The actual
//! device calls are performed by an embedding program; a mock device with
//! the same event interface lets every decision be exercised and the core
//! temporal invariants be stated and proved.

pub mod device;
pub mod mock;
pub mod pass;
pub mod pipeline;
pub mod recorder;
pub mod renderer;
pub mod slots;
pub mod surface;
pub mod teardown;
