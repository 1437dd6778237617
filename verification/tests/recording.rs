use vulkan_frames::recorder::BufferState;
use vulkan_frames::recorder::ClearColor;
use vulkan_frames::recorder::Command;
use vulkan_frames::recorder::CommandBuffer;
use vulkan_frames::recorder::DrawIntent;
use vulkan_frames::recorder::PipelineId;
use vulkan_frames::recorder::RecordError;
use vulkan_frames::recorder::fixed_clear_color;
use vulkan_frames::slots::FrameSlotPool;
use vulkan_frames::slots::PoolError;
use vulkan_frames::surface::Extent2D;

fn extent() -> Extent2D {
    Extent2D { width: 1280, height: 720 }
}

fn pipeline() -> PipelineId {
    PipelineId { raw: 7 }
}

fn triangle() -> DrawIntent {
    DrawIntent { vertex_count: 3, instance_count: 1 }
}

#[test]
fn recorded_sequence_is_exactly_the_frame_protocol() {
    let mut buf = CommandBuffer::new();
    assert_eq!(buf.state, BufferState::Initial);
    let clear = fixed_clear_color();
    assert_eq!(clear, ClearColor { r_milli: 100, g_milli: 100, b_milli: 100, a_milli: 1000 });

    buf.record_frame(extent(), pipeline(), triangle(), clear).unwrap();
    assert_eq!(buf.state, BufferState::Executable);
    assert_eq!(
        buf.commands,
        vec![
            Command::BeginPass { extent: extent(), clear },
            Command::BindPipeline { pipeline: pipeline() },
            Command::SetViewport { extent: extent() },
            Command::SetScissor { extent: extent() },
            Command::Draw { vertex_count: 3, instance_count: 1, first_vertex: 0, first_instance: 0 },
            Command::EndPass,
        ]
    );
}

#[test]
fn rerecording_a_pending_buffer_is_rejected() {
    // Recording, submitting, then recording again without the fence wait
    // must be refused; after the wait it must succeed.
    let mut pool = FrameSlotPool::new(2).unwrap();
    let clear = fixed_clear_color();
    pool.record_slot(0, extent(), pipeline(), triangle(), clear).unwrap();
    pool.mark_submitted(0).unwrap();

    let refused = pool.record_slot(0, extent(), pipeline(), triangle(), clear);
    assert_eq!(refused, Err(RecordError::BufferInFlight));
    assert_eq!(pool.command_buffer(0).state, BufferState::Pending);

    pool.wait_and_reset(0);
    pool.record_slot(0, extent(), pipeline(), triangle(), clear).unwrap();
    assert_eq!(pool.command_buffer(0).state, BufferState::Executable);
}

#[test]
fn rerecording_directly_on_a_pending_buffer_is_rejected() {
    let mut buf = CommandBuffer::new();
    let clear = fixed_clear_color();
    buf.record_frame(extent(), pipeline(), triangle(), clear).unwrap();
    buf.mark_submitted().unwrap();
    assert_eq!(buf.state, BufferState::Pending);
    assert_eq!(
        buf.record_frame(extent(), pipeline(), triangle(), clear),
        Err(RecordError::BufferInFlight)
    );
    assert_eq!(buf.reset(), Err(RecordError::BufferInFlight));
    assert_eq!(buf.begin(), Err(RecordError::BufferInFlight));
}

#[test]
fn recording_protocol_rejects_out_of_order_steps() {
    let mut buf = CommandBuffer::new();
    let clear = fixed_clear_color();

    // Nothing is open yet.
    assert_eq!(buf.end(), Err(RecordError::NotRecording));
    assert_eq!(buf.begin_pass(extent(), clear), Err(RecordError::NotRecording));
    assert_eq!(buf.draw(3, 1), Err(RecordError::PassNotActive));

    buf.begin().unwrap();
    assert_eq!(buf.begin(), Err(RecordError::AlreadyRecording));
    assert_eq!(buf.draw(3, 1), Err(RecordError::PassNotActive));

    buf.begin_pass(extent(), clear).unwrap();
    assert_eq!(buf.begin_pass(extent(), clear), Err(RecordError::PassActive));
    assert_eq!(buf.end(), Err(RecordError::PassActive));

    buf.end_pass().unwrap();
    assert_eq!(buf.end_pass(), Err(RecordError::PassNotActive));
    buf.end().unwrap();
    assert_eq!(buf.state, BufferState::Executable);
}

#[test]
fn reset_discards_a_finished_recording() {
    let mut buf = CommandBuffer::new();
    let clear = fixed_clear_color();
    buf.record_frame(extent(), pipeline(), triangle(), clear).unwrap();
    assert!(!buf.commands.is_empty());
    buf.reset().unwrap();
    assert_eq!(buf.state, BufferState::Initial);
    assert!(buf.commands.is_empty());
}

#[test]
fn a_pool_needs_at_least_one_slot() {
    assert_eq!(FrameSlotPool::new(0).err(), Some(PoolError::ZeroSlots));
    let pool = FrameSlotPool::new(3).unwrap();
    assert_eq!(pool.len(), 3);
    assert_eq!(pool.command_buffer(2).state, BufferState::Initial);
    assert_eq!(pool.acquire_signal(1), 1);
    assert_eq!(pool.finished_signal(2), 2);
    assert_eq!(pool.fence(0), 0);
}
