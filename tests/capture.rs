use color_overlay::capture::{AcquireOutcome, CaptureStep, Capturer, Cleanup, ACQUIRE_TIMEOUT_MS};

#[test]
fn first_capture_needs_no_cleanup() {
    let mut c = Capturer::new(2560, 1440);
    assert_eq!(c.width(), 2560);
    assert_eq!(c.height(), 1440);
    assert_eq!(c.begin(), Cleanup { close_handle: false, release_frame: false });
    assert_eq!(ACQUIRE_TIMEOUT_MS, 1000);
}

#[test]
fn timeout_and_unchanged_desktop_give_no_frame() {
    let mut c = Capturer::new(100, 100);
    c.begin();
    assert_eq!(c.acquired(AcquireOutcome::TimedOut), CaptureStep::NoFrame);
    assert_eq!(c.begin(), Cleanup { close_handle: false, release_frame: false });
    assert_eq!(c.acquired(AcquireOutcome::Acquired(0)), CaptureStep::NoFrame);
    assert_eq!(c.begin(), Cleanup { close_handle: false, release_frame: true });
    assert_eq!(c.acquired(AcquireOutcome::Failed), CaptureStep::Fail);
}

#[test]
fn previous_lease_dies_when_the_next_capture_starts() {
    let mut c = Capturer::new(100, 100);
    let mut previous = None;
    for _ in 0..5 {
        let cleanup = c.begin();
        if let Some(lease) = previous {
            assert_eq!(cleanup, Cleanup { close_handle: true, release_frame: true });
            assert!(!c.is_live(lease));
        }
        assert_eq!(c.acquired(AcquireOutcome::Acquired(3)), CaptureStep::Import);
        let lease = c.imported().unwrap();
        assert!(c.is_live(lease));
        if let Some(old) = previous {
            assert!(!c.is_live(old));
            assert_ne!(old, lease);
        }
        previous = Some(lease);
    }
}
