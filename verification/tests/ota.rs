use staffat_firmware::inbound::{chunk_written, image_verified, update_begun, Effect, LogEvent, SessionFault};
use staffat_firmware::frame::Frame;
use staffat_firmware::ota::{ChunkStep, FlashBegin, OtaApplier, VerifyStep};
use staffat_firmware::state::DeviceFlags;

fn next_chunk() -> Effect {
    Effect::Enqueue(Frame::Binary(Vec::new()))
}

fn pulse() -> Effect {
    Effect::Pulse { count: 1, duration_ms: 25 }
}

#[test]
fn an_image_for_another_firmware_is_passed_over() {
    let name = String::from("OTHER");
    assert_eq!(OtaApplier::announced("STAFF_ATTENDANCE", &name, 100, 7), None);
    let matching = String::from("STAFF_ATTENDANCE");
    assert_eq!(
        OtaApplier::announced("STAFF_ATTENDANCE", &matching, 100, 7),
        Some(FlashBegin { image_size: 100, checksum: 7 })
    );
    let lower = String::from("staff_attendance");
    assert_eq!(OtaApplier::announced("STAFF_ATTENDANCE", &lower, 100, 7), None);
}

#[test]
fn an_update_starts_with_five_pulses_and_the_request_for_a_chunk() {
    let mut applier = OtaApplier::new();
    let mut flags = DeviceFlags::new();
    let begin = FlashBegin { image_size: 100, checksum: 7 };
    assert_eq!(
        update_begun(&mut applier, &mut flags, begin, true),
        Ok(vec![Effect::Pulse { count: 5, duration_ms: 25 }, next_chunk()])
    );
    assert!(flags.ota);
    assert_eq!(
        applier,
        OtaApplier { failed: false, image_size: 100, checksum: 7, written: 0, last_notified: 0 }
    );
}

#[test]
fn a_flash_that_refuses_the_image_ends_the_session_and_changes_nothing() {
    let mut applier = OtaApplier::new();
    let mut flags = DeviceFlags::new();
    let begin = FlashBegin { image_size: 100, checksum: 7 };
    assert_eq!(update_begun(&mut applier, &mut flags, begin, false), Err(SessionFault::FlashRefused));
    assert!(!flags.ota);
    assert_eq!(applier, OtaApplier::new());
}

#[test]
fn chunks_up_to_the_announced_size_end_in_a_check_and_a_restart() {
    let mut applier = OtaApplier::new();
    let mut flags = DeviceFlags::new();
    let begin = FlashBegin { image_size: 1000, checksum: 7 };
    update_begun(&mut applier, &mut flags, begin, true).expect("begun");
    assert_eq!(chunk_written(&mut applier, &flags, 400, true), vec![pulse(), next_chunk()]);
    assert_eq!(applier.percent(), 40);
    assert_eq!(chunk_written(&mut applier, &flags, 40, true), vec![next_chunk()]);
    assert_eq!(applier.percent(), 44);
    assert_eq!(chunk_written(&mut applier, &flags, 0, true), vec![next_chunk()]);
    assert_eq!(chunk_written(&mut applier, &flags, 559, true), vec![pulse(), next_chunk()]);
    assert_eq!(applier.percent(), 99);
    assert_eq!(chunk_written(&mut applier, &flags, 1, true), vec![pulse(), Effect::VerifyImage]);
    assert_eq!(applier.percent(), 100);
    assert_eq!(applier.written, 1000);
    assert_eq!(image_verified(&mut applier, &flags, true), vec![Effect::Restart]);
}

#[test]
fn an_image_that_fails_its_check_is_logged_and_not_restarted_into() {
    let mut applier = OtaApplier::new();
    let mut flags = DeviceFlags::new();
    update_begun(&mut applier, &mut flags, FlashBegin { image_size: 8, checksum: 1 }, true)
        .expect("begun");
    assert_eq!(chunk_written(&mut applier, &flags, 8, true), vec![pulse(), Effect::VerifyImage]);
    assert_eq!(
        image_verified(&mut applier, &flags, false),
        vec![Effect::Log(LogEvent::OtaVerifyFailed), next_chunk()]
    );
    assert!(applier.failed);
    assert!(flags.ota);
    assert_eq!(image_verified(&mut applier, &flags, true), Vec::new());
    assert_eq!(chunk_written(&mut applier, &flags, 8, true), Vec::new());
    assert!(!applier.wants_chunk(flags.ota));
}

#[test]
fn a_chunk_that_the_flash_refuses_ends_the_update() {
    let mut applier = OtaApplier::new();
    let mut flags = DeviceFlags::new();
    update_begun(&mut applier, &mut flags, FlashBegin { image_size: 8, checksum: 1 }, true)
        .expect("begun");
    assert_eq!(
        chunk_written(&mut applier, &flags, 4, false),
        vec![Effect::Log(LogEvent::OtaWriteFailed)]
    );
    assert_eq!(applier.written, 0);
    assert!(applier.failed);
}

#[test]
fn outside_an_update_chunks_and_checks_mean_nothing() {
    let mut applier = OtaApplier::new();
    let flags = DeviceFlags::new();
    assert_eq!(chunk_written(&mut applier, &flags, 4, true), Vec::new());
    assert_eq!(image_verified(&mut applier, &flags, true), Vec::new());
    assert_eq!(applier, OtaApplier::new());
    assert_eq!(applier.chunk_written(false, 4, true), ChunkStep::Ignored);
    assert_eq!(applier.verified(false, true), VerifyStep::Ignored);
    assert!(!applier.wants_chunk(false));
}

#[test]
fn the_indicator_pulses_when_progress_passes_a_multiple_of_ten() {
    let mut applier = OtaApplier::new();
    assert!(applier.begun(FlashBegin { image_size: 200, checksum: 0 }, true));
    assert_eq!(applier.chunk_written(true, 1, true), ChunkStep::Continue { pulse: false });
    assert_eq!(applier.percent(), 0);
    assert_eq!(applier.chunk_written(true, 17, true), ChunkStep::Continue { pulse: false });
    assert_eq!(applier.percent(), 9);
    assert_eq!(applier.last_notified, 0);
    assert_eq!(applier.chunk_written(true, 50, true), ChunkStep::Continue { pulse: true });
    assert_eq!(applier.last_notified, 34);
    assert_eq!(applier.chunk_written(true, 10, true), ChunkStep::Continue { pulse: false });
    assert_eq!(applier.chunk_written(true, 2, true), ChunkStep::Continue { pulse: true });
    assert_eq!(applier.last_notified, 40);
    assert_eq!(applier.chunk_written(true, 500, true), ChunkStep::Complete { pulse: true });
    assert_eq!(applier.last_notified, 100);
    assert_eq!(applier.verified(true, true), VerifyStep::Restart);
}

#[test]
fn an_empty_image_is_complete_with_its_first_chunk() {
    let mut applier = OtaApplier::new();
    assert!(applier.begun(FlashBegin { image_size: 0, checksum: 0 }, true));
    assert_eq!(applier.percent(), 100);
    assert_eq!(applier.chunk_written(true, 0, true), ChunkStep::Complete { pulse: true });
}

#[test]
fn the_count_of_written_bytes_stops_at_the_largest_number() {
    let mut applier = OtaApplier {
        failed: false,
        image_size: u32::MAX,
        checksum: 0,
        written: u64::MAX - 1,
        last_notified: 100,
    };
    assert_eq!(applier.chunk_written(true, 5, true), ChunkStep::Complete { pulse: false });
    assert_eq!(applier.written, u64::MAX);
}

#[test]
fn a_first_chunk_below_ten_percent_gives_no_pulse() {
    let mut applier = OtaApplier::new();
    let mut flags = DeviceFlags::new();
    update_begun(&mut applier, &mut flags, FlashBegin { image_size: 100, checksum: 1 }, true)
        .expect("begun");
    assert_eq!(chunk_written(&mut applier, &flags, 3, true), vec![next_chunk()]);
    assert_eq!(chunk_written(&mut applier, &flags, 7, true), vec![pulse(), next_chunk()]);
    assert_eq!(applier.last_notified, 10);
}
