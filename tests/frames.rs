use vk_renderer::memory::{MEMORY_PROPERTY_DEVICE_LOCAL, MEMORY_PROPERTY_HOST_COHERENT, MEMORY_PROPERTY_HOST_VISIBLE};
use vk_renderer::scheduler::{
    AcquireAction, AcquireOutcome, DrawPlan, FrameError, FramePhase, FrameScheduler, FrameStart,
    PresentOutcome,
};
use vk_renderer::swapchain::Extent2D;
use vk_renderer::upload::{
    plan_buffer_upload, plan_texture_upload, read_mapped, write_mapped, ResourceRequest,
    StagingPlan, UploadError, BUFFER_USAGE_TRANSFER_DST, BUFFER_USAGE_TRANSFER_SRC,
    BUFFER_USAGE_VERTEX_BUFFER, IMAGE_USAGE_SAMPLED, IMAGE_USAGE_TRANSFER_DST,
};

fn ext(width: u32, height: u32) -> Extent2D {
    Extent2D { width, height }
}

/// Fences as the device would hold them: the image each slot's submitted
/// work uses, cleared once the program has waited on that slot's fence.
struct Timeline {
    in_flight: Vec<Option<usize>>,
}

impl Timeline {
    fn wait(&mut self, slot: usize) {
        self.in_flight[slot] = None;
    }
}

fn check_table(s: &FrameScheduler) {
    for j in 0..s.image_count() {
        if let Some(t) = s.image_fence(j) {
            assert_eq!(s.slot_image(t), Some(j));
        }
    }
    for t in 0..s.slot_count() {
        if let Some(j) = s.slot_image(t) {
            assert_eq!(s.image_fence(j), Some(t));
        }
    }
}

/// Runs one frame that acquires `image`; returns the plan it drew with.
fn run_frame(s: &mut FrameScheduler, gpu: &mut Timeline, image: usize) -> DrawPlan {
    let slot = match s.begin_frame(ext(800, 600)) {
        FrameStart::WaitSlot(slot) => slot,
        other => panic!("unexpected start {:?}", other),
    };
    gpu.wait(slot);
    let plan = match s.on_acquire(AcquireOutcome::Acquired { image, suboptimal: false }) {
        Ok(AcquireAction::Draw(plan)) => plan,
        other => panic!("unexpected acquire {:?}", other),
    };
    assert_eq!(plan.slot, slot);
    assert_eq!(plan.image, image);
    if let Some(t) = plan.wait_on {
        assert_ne!(t, slot);
        gpu.wait(t);
    }
    for (t, used) in gpu.in_flight.iter().enumerate() {
        if t != slot {
            assert_ne!(*used, Some(image), "image {} still in use by slot {}", image, t);
        }
    }
    gpu.in_flight[slot] = Some(image);
    check_table(s);
    assert_eq!(s.frame_presented(PresentOutcome::Presented), Ok(()));
    plan
}

#[test]
fn new_scheduler_is_idle() {
    let s = FrameScheduler::new(2, 3);
    assert_eq!(s.slot_count(), 2);
    assert_eq!(s.image_count(), 3);
    assert_eq!(s.current_slot(), 0);
    assert_eq!(s.phase(), FramePhase::Idle);
    assert!(!s.needs_rebuild());
    for j in 0..3 {
        assert_eq!(s.image_fence(j), None);
    }
}

#[test]
fn end_to_end_three_images_two_slots() {
    let mut s = FrameScheduler::new(2, 3);
    let mut gpu = Timeline { in_flight: vec![None; 2] };
    let script = [0usize, 1, 2, 0, 2, 2, 1, 0, 1, 2];
    let mut slots = Vec::new();
    for &image in script.iter() {
        let plan = run_frame(&mut s, &mut gpu, image);
        slots.push(plan.slot);
    }
    assert_eq!(slots, vec![0, 1, 0, 1, 0, 1, 0, 1, 0, 1]);
    assert_eq!(s.current_slot(), 0);
    check_table(&s);
}

#[test]
fn reused_image_waits_on_previous_slot() {
    let mut s = FrameScheduler::new(2, 3);
    let mut gpu = Timeline { in_flight: vec![None; 2] };
    let first = run_frame(&mut s, &mut gpu, 1);
    assert_eq!(first.wait_on, None);
    let second = run_frame(&mut s, &mut gpu, 1);
    assert_eq!(second.slot, 1);
    assert_eq!(second.wait_on, Some(0));
    assert_eq!(s.image_fence(1), Some(1));
    assert_eq!(s.slot_image(0), None);
}

#[test]
fn slot_wait_clears_its_table_entry() {
    let mut s = FrameScheduler::new(2, 3);
    let mut gpu = Timeline { in_flight: vec![None; 2] };
    run_frame(&mut s, &mut gpu, 2);
    run_frame(&mut s, &mut gpu, 0);
    assert_eq!(s.image_fence(2), Some(0));
    assert_eq!(s.begin_frame(ext(800, 600)), FrameStart::WaitSlot(0));
    assert_eq!(s.image_fence(2), None);
    assert_eq!(s.slot_image(0), None);
    assert_eq!(s.image_fence(0), Some(1));
}

#[test]
fn more_slots_than_images() {
    let mut s = FrameScheduler::new(4, 2);
    let mut gpu = Timeline { in_flight: vec![None; 4] };
    for round in 0..12 {
        run_frame(&mut s, &mut gpu, round % 2);
    }
    check_table(&s);
}

#[test]
fn resize_sequence_defers_and_rebuilds_once() {
    let images = 3;
    let mut s = FrameScheduler::new(2, images);
    let mut gpu = Timeline { in_flight: vec![None; 2] };
    run_frame(&mut s, &mut gpu, 0);
    run_frame(&mut s, &mut gpu, 1);

    // The window is minimized.
    s.note_resized();
    let mut rebuilds = 0;
    let mut recorded_command_buffers = 0;
    let sizes = [ext(0, 0), ext(0, 0), ext(1024, 0), ext(1024, 768), ext(1024, 768)];
    for size in sizes.iter() {
        match s.begin_frame(*size) {
            FrameStart::Defer => {
                assert!(size.width == 0 || size.height == 0);
                assert!(s.needs_rebuild());
            }
            FrameStart::Rebuild => {
                assert_eq!(*size, ext(1024, 768));
                assert_eq!(s.phase(), FramePhase::Rebuilding);
                rebuilds += 1;
                s.swapchain_rebuilt(images);
                recorded_command_buffers += s.image_count();
                gpu.in_flight = vec![None; 2];
            }
            FrameStart::WaitSlot(slot) => {
                gpu.wait(slot);
                assert_eq!(rebuilds, 1);
                assert!(s.on_acquire(AcquireOutcome::Acquired { image: 2, suboptimal: false }).is_ok());
                assert_eq!(s.frame_presented(PresentOutcome::Presented), Ok(()));
            }
        }
    }
    assert_eq!(rebuilds, 1);
    assert_eq!(recorded_command_buffers, images);
    assert!(!s.needs_rebuild());
    for j in 0..images {
        if j != 2 {
            assert_eq!(s.image_fence(j), None);
        }
    }
}

#[test]
fn out_of_date_acquire_restarts_with_rebuild() {
    let mut s = FrameScheduler::new(2, 3);
    assert_eq!(s.begin_frame(ext(800, 600)), FrameStart::WaitSlot(0));
    assert_eq!(s.on_acquire(AcquireOutcome::OutOfDate), Ok(AcquireAction::Restart));
    assert!(s.needs_rebuild());
    assert_eq!(s.phase(), FramePhase::Idle);
    assert_eq!(s.current_slot(), 0);
    assert_eq!(s.begin_frame(ext(800, 600)), FrameStart::Rebuild);
    s.swapchain_rebuilt(4);
    assert_eq!(s.image_count(), 4);
    assert_eq!(s.begin_frame(ext(800, 600)), FrameStart::WaitSlot(0));
}

#[test]
fn suboptimal_results_request_rebuild() {
    let mut s = FrameScheduler::new(2, 3);
    s.begin_frame(ext(800, 600));
    let action = s.on_acquire(AcquireOutcome::Acquired { image: 0, suboptimal: true });
    assert_eq!(action, Ok(AcquireAction::Draw(DrawPlan { slot: 0, image: 0, wait_on: None })));
    assert!(s.needs_rebuild());
    assert_eq!(s.frame_presented(PresentOutcome::Presented), Ok(()));
    assert_eq!(s.current_slot(), 1);

    let mut t = FrameScheduler::new(2, 3);
    t.begin_frame(ext(800, 600));
    t.on_acquire(AcquireOutcome::Acquired { image: 0, suboptimal: false }).unwrap();
    assert_eq!(t.frame_presented(PresentOutcome::OutOfDate), Ok(()));
    assert!(t.needs_rebuild());
    assert_eq!(t.begin_frame(ext(800, 600)), FrameStart::Rebuild);

    let mut u = FrameScheduler::new(2, 3);
    u.begin_frame(ext(800, 600));
    u.on_acquire(AcquireOutcome::Acquired { image: 0, suboptimal: false }).unwrap();
    assert_eq!(u.frame_presented(PresentOutcome::Suboptimal), Ok(()));
    assert!(u.needs_rebuild());
}

#[test]
fn zero_extent_defers_without_rebuild_pending() {
    let mut s = FrameScheduler::new(2, 3);
    assert_eq!(s.begin_frame(ext(0, 600)), FrameStart::Defer);
    assert_eq!(s.phase(), FramePhase::Idle);
    assert!(!s.needs_rebuild());
}

#[test]
fn acquire_errors() {
    let mut s = FrameScheduler::new(2, 3);
    s.begin_frame(ext(800, 600));
    assert_eq!(
        s.on_acquire(AcquireOutcome::Acquired { image: 3, suboptimal: false }),
        Err(FrameError::ImageOutOfRange)
    );
    assert_eq!(s.on_acquire(AcquireOutcome::Failed), Err(FrameError::DeviceLost));
    assert_eq!(s.phase(), FramePhase::SlotWaited);
}

#[test]
fn present_failure_is_fatal() {
    let mut s = FrameScheduler::new(2, 3);
    s.begin_frame(ext(800, 600));
    s.on_acquire(AcquireOutcome::Acquired { image: 1, suboptimal: false }).unwrap();
    assert_eq!(s.frame_presented(PresentOutcome::Failed), Err(FrameError::DeviceLost));
    assert_eq!(s.current_slot(), 0);
}

fn staging_round_trip(data: &[u8]) -> Vec<u8> {
    let plan = plan_buffer_upload(data.len(), BUFFER_USAGE_VERTEX_BUFFER).unwrap();
    assert_eq!(plan.staging.size as usize, data.len());
    assert_eq!(plan.copy_size as usize, data.len());
    let mut staging = vec![0u8; plan.staging.size as usize];
    write_mapped(&mut staging, data);
    // The device copies the staging buffer to the device-local buffer, then
    // to a host-visible mirror.
    let mut device_local = vec![0xAAu8; plan.destination.size as usize];
    let n = plan.copy_size as usize;
    device_local[..n].copy_from_slice(&staging[..n]);
    let mut mirror = vec![0x55u8; plan.destination.size as usize];
    mirror[..n].copy_from_slice(&device_local[..n]);
    read_mapped(&mirror, data.len())
}

#[test]
fn staged_upload_one_byte() {
    assert_eq!(staging_round_trip(&[0x7f]), vec![0x7f]);
}

#[test]
fn staged_upload_large() {
    let data: Vec<u8> = (0..70_000u32).map(|i| (i * 31 % 251) as u8).collect();
    assert!(data.len() > 64 * 1024);
    assert_eq!(staging_round_trip(&data), data);
}

#[test]
fn staged_upload_empty_is_rejected() {
    assert_eq!(plan_buffer_upload(0, BUFFER_USAGE_VERTEX_BUFFER), Err(UploadError::EmptyData));
}

#[test]
fn buffer_upload_plan() {
    let plan = plan_buffer_upload(96, BUFFER_USAGE_VERTEX_BUFFER).unwrap();
    assert_eq!(
        plan,
        StagingPlan {
            staging: ResourceRequest {
                size: 96,
                usage: BUFFER_USAGE_TRANSFER_SRC,
                memory_properties: MEMORY_PROPERTY_HOST_VISIBLE | MEMORY_PROPERTY_HOST_COHERENT,
            },
            destination: ResourceRequest {
                size: 96,
                usage: BUFFER_USAGE_VERTEX_BUFFER | BUFFER_USAGE_TRANSFER_DST,
                memory_properties: MEMORY_PROPERTY_DEVICE_LOCAL,
            },
            copy_size: 96,
        }
    );
}

#[test]
fn texture_upload_plan() {
    let plan = plan_texture_upload(4, 2, 32).unwrap();
    assert_eq!(plan.staging.size, 32);
    assert_eq!(plan.destination.usage, IMAGE_USAGE_TRANSFER_DST | IMAGE_USAGE_SAMPLED);
    assert_eq!(plan.destination.memory_properties, MEMORY_PROPERTY_DEVICE_LOCAL);
    assert_eq!(plan.copy_size, 32);
    assert_eq!(plan_texture_upload(0, 2, 0), Err(UploadError::EmptyData));
    assert_eq!(plan_texture_upload(4, 2, 31), Err(UploadError::SizeMismatch));
    assert_eq!(plan_texture_upload(u32::MAX, u32::MAX, 16), Err(UploadError::TooLarge));
}

#[test]
fn mapped_write_keeps_tail() {
    let mut region = vec![9u8; 5];
    write_mapped(&mut region, &[1, 2]);
    assert_eq!(region, vec![1, 2, 9, 9, 9]);
    write_mapped(&mut region, &[]);
    assert_eq!(region, vec![1, 2, 9, 9, 9]);
    assert_eq!(read_mapped(&region, 3), vec![1, 2, 9]);
    assert_eq!(read_mapped(&region, 0), Vec::<u8>::new());
}
