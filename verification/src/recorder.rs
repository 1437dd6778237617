//! Command recording: a replayable command sequence composed CPU-side,
//! bounded by begin/end and a single render-target pass, with the reuse
//! protocol that forbids re-recording a buffer a pending submission may
//! still reference.

use vstd::prelude::*;
use crate::surface::Extent2D;

verus! {

/// An opaque handle to an already-built graphics pipeline.
#[derive(Clone, Copy, PartialEq, Eq, Structural, Debug)]
pub struct PipelineId {
    pub raw: u64,
}

/// A frame's draw intent: plain vertex/instance counts, reconstructed
/// every frame before recording.
#[derive(Clone, Copy, PartialEq, Eq, Structural, Debug)]
pub struct DrawIntent {
    pub vertex_count: u32,
    pub instance_count: u32,
}

/// A color value with each channel in thousandths (0 through 1000).
#[derive(Clone, Copy, PartialEq, Eq, Structural, Debug)]
pub struct ClearColor {
    pub r_milli: u16,
    pub g_milli: u16,
    pub b_milli: u16,
    pub a_milli: u16,
}

/// The fixed dark-gray clear value every pass starts from.
pub fn fixed_clear_color() -> (c: ClearColor)
    ensures
        c == (ClearColor { r_milli: 100, g_milli: 100, b_milli: 100, a_milli: 1000 }),
{
    ClearColor { r_milli: 100, g_milli: 100, b_milli: 100, a_milli: 1000 }
}

/// One recorded command.
#[derive(Clone, Copy, PartialEq, Eq, Structural, Debug)]
pub enum Command {
    BeginPass { extent: Extent2D, clear: ClearColor },
    BindPipeline { pipeline: PipelineId },
    SetViewport { extent: Extent2D },
    SetScissor { extent: Extent2D },
    Draw { vertex_count: u32, instance_count: u32, first_vertex: u32, first_instance: u32 },
    EndPass,
}

/// Where a command buffer stands in its lifecycle.
#[derive(Clone, Copy, PartialEq, Eq, Structural, Debug)]
pub enum BufferState {
    /// Never recorded, or reset.
    Initial,
    /// Between begin and end, outside a pass.
    Recording,
    /// Between begin-pass and end-pass.
    RecordingInPass,
    /// Fully recorded and ready to submit.
    Executable,
    /// Submitted; the completion fence has not been waited yet.
    Pending,
}

/// Why a recording operation was refused. Every refusal leaves the buffer
/// unchanged.
#[derive(Clone, Copy, PartialEq, Eq, Structural, Debug)]
pub enum RecordError {
    /// The buffer may still be referenced by a pending submission; the
    /// fence wait must come first.
    BufferInFlight,
    /// The operation needs an open recording and there is none.
    NotRecording,
    /// A recording is already open.
    AlreadyRecording,
    /// The operation needs an open pass and there is none.
    PassNotActive,
    /// A pass is still open.
    PassActive,
}

/// One reusable command buffer: its lifecycle state and the commands of
/// its current recording.
#[derive(Clone, PartialEq, Eq, Debug)]
pub struct CommandBuffer {
    pub state: BufferState,
    pub commands: Vec<Command>,
}

/// The full command sequence one frame records: a cleared pass over the
/// current extent, the pipeline bound, dynamic viewport and scissor set
/// from that extent, one draw with zero offsets, and the pass closed.
pub open spec fn frame_commands(
    extent: Extent2D,
    pipeline: PipelineId,
    draw: DrawIntent,
    clear: ClearColor,
) -> Seq<Command> {
    seq![
        Command::BeginPass { extent, clear },
        Command::BindPipeline { pipeline },
        Command::SetViewport { extent },
        Command::SetScissor { extent },
        Command::Draw {
            vertex_count: draw.vertex_count,
            instance_count: draw.instance_count,
            first_vertex: 0,
            first_instance: 0,
        },
        Command::EndPass,
    ]
}

impl CommandBuffer {
    /// A fresh buffer: never recorded, no commands.
    pub fn new() -> (r: CommandBuffer)
        ensures
            r.state == BufferState::Initial,
            r.commands@.len() == 0,
    {
        CommandBuffer { state: BufferState::Initial, commands: Vec::new() }
    }

    /// Discard the current recording. Refused only while a pending
    /// submission may still reference the buffer.
    pub fn reset(&mut self) -> (r: Result<(), RecordError>)
        ensures
            old(self).state == BufferState::Pending ==> r == Err::<(), RecordError>(
                RecordError::BufferInFlight,
            ) && *final(self) == *old(self),
            old(self).state != BufferState::Pending ==> r == Ok::<(), RecordError>(())
                && final(self).state == BufferState::Initial && final(self).commands@.len() == 0,
    {
        if self.state == BufferState::Pending {
            return Err(RecordError::BufferInFlight);
        }
        self.state = BufferState::Initial;
        self.commands = Vec::new();
        Ok(())
    }

    /// Open a recording, discarding any previous one.
    pub fn begin(&mut self) -> (r: Result<(), RecordError>)
        ensures
            old(self).state == BufferState::Pending ==> r == Err::<(), RecordError>(
                RecordError::BufferInFlight,
            ) && *final(self) == *old(self),
            (old(self).state == BufferState::Recording || old(self).state
                == BufferState::RecordingInPass) ==> r == Err::<(), RecordError>(
                RecordError::AlreadyRecording,
            ) && *final(self) == *old(self),
            (old(self).state == BufferState::Initial || old(self).state == BufferState::Executable)
                ==> r == Ok::<(), RecordError>(()) && final(self).state == BufferState::Recording
                && final(self).commands@.len() == 0,
    {
        match self.state {
            BufferState::Pending => Err(RecordError::BufferInFlight),
            BufferState::Recording => Err(RecordError::AlreadyRecording),
            BufferState::RecordingInPass => Err(RecordError::AlreadyRecording),
            _ => {
                self.state = BufferState::Recording;
                self.commands = Vec::new();
                Ok(())
            },
        }
    }

    /// Open the render-target pass, clearing the attachment.
    pub fn begin_pass(&mut self, extent: Extent2D, clear: ClearColor) -> (r: Result<
        (),
        RecordError,
    >)
        ensures
            old(self).state == BufferState::Recording ==> r == Ok::<(), RecordError>(())
                && final(self).state == BufferState::RecordingInPass && final(self).commands@
                == old(self).commands@.push(Command::BeginPass { extent, clear }),
            old(self).state == BufferState::RecordingInPass ==> r == Err::<(), RecordError>(
                RecordError::PassActive,
            ) && *final(self) == *old(self),
            old(self).state == BufferState::Pending ==> r == Err::<(), RecordError>(
                RecordError::BufferInFlight,
            ) && *final(self) == *old(self),
            (old(self).state == BufferState::Initial || old(self).state == BufferState::Executable)
                ==> r == Err::<(), RecordError>(RecordError::NotRecording) && *final(self) == *old(
                self,
            ),
    {
        match self.state {
            BufferState::Recording => {
                self.commands.push(Command::BeginPass { extent, clear });
                self.state = BufferState::RecordingInPass;
                Ok(())
            },
            BufferState::RecordingInPass => Err(RecordError::PassActive),
            BufferState::Pending => Err(RecordError::BufferInFlight),
            _ => Err(RecordError::NotRecording),
        }
    }

    /// Bind the graphics pipeline inside the open pass.
    pub fn bind_pipeline(&mut self, pipeline: PipelineId) -> (r: Result<(), RecordError>)
        ensures
            old(self).state == BufferState::RecordingInPass ==> r == Ok::<(), RecordError>(())
                && final(self).state == BufferState::RecordingInPass && final(self).commands@
                == old(self).commands@.push(Command::BindPipeline { pipeline }),
            old(self).state != BufferState::RecordingInPass ==> r == Err::<(), RecordError>(
                RecordError::PassNotActive,
            ) && *final(self) == *old(self),
    {
        match self.state {
            BufferState::RecordingInPass => {
                self.commands.push(Command::BindPipeline { pipeline });
                Ok(())
            },
            _ => Err(RecordError::PassNotActive),
        }
    }

    /// Set the dynamic viewport from the current target extent.
    pub fn set_viewport(&mut self, extent: Extent2D) -> (r: Result<(), RecordError>)
        ensures
            old(self).state == BufferState::RecordingInPass ==> r == Ok::<(), RecordError>(())
                && final(self).state == BufferState::RecordingInPass && final(self).commands@
                == old(self).commands@.push(Command::SetViewport { extent }),
            old(self).state != BufferState::RecordingInPass ==> r == Err::<(), RecordError>(
                RecordError::PassNotActive,
            ) && *final(self) == *old(self),
    {
        match self.state {
            BufferState::RecordingInPass => {
                self.commands.push(Command::SetViewport { extent });
                Ok(())
            },
            _ => Err(RecordError::PassNotActive),
        }
    }

    /// Set the dynamic scissor from the current target extent.
    pub fn set_scissor(&mut self, extent: Extent2D) -> (r: Result<(), RecordError>)
        ensures
            old(self).state == BufferState::RecordingInPass ==> r == Ok::<(), RecordError>(())
                && final(self).state == BufferState::RecordingInPass && final(self).commands@
                == old(self).commands@.push(Command::SetScissor { extent }),
            old(self).state != BufferState::RecordingInPass ==> r == Err::<(), RecordError>(
                RecordError::PassNotActive,
            ) && *final(self) == *old(self),
    {
        match self.state {
            BufferState::RecordingInPass => {
                self.commands.push(Command::SetScissor { extent });
                Ok(())
            },
            _ => Err(RecordError::PassNotActive),
        }
    }

    /// Record one draw with the given counts and zero offsets.
    pub fn draw(&mut self, vertex_count: u32, instance_count: u32) -> (r: Result<(), RecordError>)
        ensures
            old(self).state == BufferState::RecordingInPass ==> r == Ok::<(), RecordError>(())
                && final(self).state == BufferState::RecordingInPass && final(self).commands@
                == old(self).commands@.push(
                Command::Draw { vertex_count, instance_count, first_vertex: 0, first_instance: 0 },
            ),
            old(self).state != BufferState::RecordingInPass ==> r == Err::<(), RecordError>(
                RecordError::PassNotActive,
            ) && *final(self) == *old(self),
    {
        match self.state {
            BufferState::RecordingInPass => {
                self.commands.push(
                    Command::Draw {
                        vertex_count,
                        instance_count,
                        first_vertex: 0,
                        first_instance: 0,
                    },
                );
                Ok(())
            },
            _ => Err(RecordError::PassNotActive),
        }
    }

    /// Close the pass, storing the attachment for presentation.
    pub fn end_pass(&mut self) -> (r: Result<(), RecordError>)
        ensures
            old(self).state == BufferState::RecordingInPass ==> r == Ok::<(), RecordError>(())
                && final(self).state == BufferState::Recording && final(self).commands@ == old(
                self,
            ).commands@.push(Command::EndPass),
            old(self).state != BufferState::RecordingInPass ==> r == Err::<(), RecordError>(
                RecordError::PassNotActive,
            ) && *final(self) == *old(self),
    {
        match self.state {
            BufferState::RecordingInPass => {
                self.commands.push(Command::EndPass);
                self.state = BufferState::Recording;
                Ok(())
            },
            _ => Err(RecordError::PassNotActive),
        }
    }

    /// Close the recording, making the buffer submittable.
    pub fn end(&mut self) -> (r: Result<(), RecordError>)
        ensures
            old(self).state == BufferState::Recording ==> r == Ok::<(), RecordError>(())
                && final(self).state == BufferState::Executable && final(self).commands@ == old(
                self,
            ).commands@,
            old(self).state == BufferState::RecordingInPass ==> r == Err::<(), RecordError>(
                RecordError::PassActive,
            ) && *final(self) == *old(self),
            (old(self).state == BufferState::Initial || old(self).state == BufferState::Executable
                || old(self).state == BufferState::Pending) ==> r == Err::<(), RecordError>(
                RecordError::NotRecording,
            ) && *final(self) == *old(self),
    {
        match self.state {
            BufferState::Recording => {
                self.state = BufferState::Executable;
                Ok(())
            },
            BufferState::RecordingInPass => Err(RecordError::PassActive),
            _ => Err(RecordError::NotRecording),
        }
    }

    /// Record one frame's full command sequence: begin, a cleared pass,
    /// pipeline bound, viewport and scissor from the extent, one draw,
    /// pass closed, recording closed. Refused without touching the buffer
    /// when a pending submission may still reference it, or when a
    /// recording is already open.
    pub fn record_frame(
        &mut self,
        extent: Extent2D,
        pipeline: PipelineId,
        draw: DrawIntent,
        clear: ClearColor,
    ) -> (r: Result<(), RecordError>)
        ensures
            old(self).state == BufferState::Pending ==> r == Err::<(), RecordError>(
                RecordError::BufferInFlight,
            ) && *final(self) == *old(self),
            (old(self).state == BufferState::Recording || old(self).state
                == BufferState::RecordingInPass) ==> r == Err::<(), RecordError>(
                RecordError::AlreadyRecording,
            ) && *final(self) == *old(self),
            (old(self).state == BufferState::Initial || old(self).state == BufferState::Executable)
                ==> r == Ok::<(), RecordError>(()) && final(self).state == BufferState::Executable
                && final(self).commands@ == frame_commands(extent, pipeline, draw, clear),
    {
        match self.state {
            BufferState::Pending => {
                return Err(RecordError::BufferInFlight);
            },
            BufferState::Recording => {
                return Err(RecordError::AlreadyRecording);
            },
            BufferState::RecordingInPass => {
                return Err(RecordError::AlreadyRecording);
            },
            _ => {},
        }
        let _ = self.begin();
        let _ = self.begin_pass(extent, clear);
        let _ = self.bind_pipeline(pipeline);
        let _ = self.set_viewport(extent);
        let _ = self.set_scissor(extent);
        let _ = self.draw(draw.vertex_count, draw.instance_count);
        let _ = self.end_pass();
        let _ = self.end();
        proof {
            assert(self.commands@ =~= frame_commands(extent, pipeline, draw, clear));
        }
        Ok(())
    }

    /// Hand the recorded buffer to a submission: from then on the buffer
    /// may be referenced by the device until the completion fence is
    /// waited.
    pub fn mark_submitted(&mut self) -> (r: Result<(), RecordError>)
        ensures
            old(self).state == BufferState::Executable ==> r == Ok::<(), RecordError>(())
                && final(self).state == BufferState::Pending && final(self).commands@ == old(
                self,
            ).commands@,
            old(self).state != BufferState::Executable ==> r == Err::<(), RecordError>(
                RecordError::NotRecording,
            ) && *final(self) == *old(self),
    {
        match self.state {
            BufferState::Executable => {
                self.state = BufferState::Pending;
                Ok(())
            },
            _ => Err(RecordError::NotRecording),
        }
    }

    /// The completion fence of the submission referencing this buffer has
    /// been waited and reset: the buffer is reusable again.
    pub fn mark_complete(&mut self)
        ensures
            old(self).state == BufferState::Pending ==> final(self).state
                == BufferState::Executable && final(self).commands@ == old(self).commands@,
            old(self).state != BufferState::Pending ==> *final(self) == *old(self),
    {
        if self.state == BufferState::Pending {
            self.state = BufferState::Executable;
        }
    }
}

} // verus!
