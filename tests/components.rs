use yas::config::{ConfigError, ScanConfig};
use yas::geometry::{detect_bucket, AspectBucket, FieldKind, GeometryError, GeometryModel, Rect};
use yas::lock_file::{parse_lock_request, LockFileError};
use yas::lock_flip::{LockAction, LockFlipController, LockOutcome, LockToggleRequest};
use yas::navigation::{scale_wait, InputAction, NavigationController};
use yas::poll::{PollSpec, PollState, PollVerdict};
use yas::record::{resolve_field, ArtifactRecord, FieldValue, SubStat};
use yas::version::get_version;

#[test]
fn buckets_by_exact_ratio() {
    assert_eq!(detect_bucket(1600, 900), Ok(AspectBucket::Ratio16x9));
    assert_eq!(detect_bucket(1920, 1080), Ok(AspectBucket::Ratio16x9));
    assert_eq!(detect_bucket(1440, 900), Ok(AspectBucket::Ratio8x5));
    assert_eq!(detect_bucket(1280, 960), Ok(AspectBucket::Ratio4x3));
    assert_eq!(detect_bucket(1366, 767), Err(GeometryError::UnsupportedResolution));
}

#[test]
fn geometry_rejects_mismatched_bucket() {
    assert_eq!(
        GeometryModel::new(1600, 900, 0, 0, AspectBucket::Ratio4x3),
        Err(GeometryError::UnsupportedResolution)
    );
}

#[test]
fn slot_rects_scale_with_window() {
    let g = GeometryModel::new(1600, 900, 0, 0, AspectBucket::Ratio16x9).unwrap();
    assert_eq!(g.slots_per_page(), 40);
    assert_eq!(g.slot_rect(0), Ok(Rect { left: 81, top: 125, width: 100, height: 120 }));
    assert_eq!(g.slot_rect(9), Ok(Rect { left: 202, top: 271, width: 100, height: 120 }));
    assert_eq!(g.slot_rect(40), Err(GeometryError::IndexOutOfRange));
    let g2 = GeometryModel::new(3200, 1800, 10, -5, AspectBucket::Ratio16x9).unwrap();
    assert_eq!(g2.slot_rect(0), Ok(Rect { left: 172, top: 245, width: 200, height: 240 }));
    assert_eq!(g2.field_rect(FieldKind::LockIcon), Rect { left: 3014, top: 699, width: 60, height: 60 });
    assert_eq!(g2.sub_stat_rect(4), Err(GeometryError::IndexOutOfRange));
    assert_eq!(g2.sub_stat_rect(1), Ok(Rect { left: 2302, top: 855, width: 600, height: 60 }));
}

#[test]
fn speed_scales_waits() {
    assert_eq!(scale_wait(100, 1), 500);
    assert_eq!(scale_wait(100, 3), 200);
    assert_eq!(scale_wait(100, 5), 100);
    assert!(NavigationController::new(0, 800, 0, 100).is_none());
    assert!(NavigationController::new(6, 800, 0, 100).is_none());
}

#[test]
fn navigation_steps() {
    let g = GeometryModel::new(1600, 900, 0, 0, AspectBucket::Ratio16x9).unwrap();
    let n = NavigationController::new(4, 800, 200, 100).unwrap();
    let s = n.advance(&g, 0).unwrap();
    assert_eq!(s.action, InputAction::Click { x: 131, y: 185 });
    assert_eq!(s.settle_ms, 60);
    assert_eq!(n.advance(&g, 40), Err(GeometryError::IndexOutOfRange));
    let sc = n.scroll_page(&g);
    assert_eq!(sc.action, InputAction::Scroll { notches: 25 });
    assert_eq!(sc.settle_ms, 150);
    assert_eq!(n.toggle_lock(&g).action, InputAction::Click { x: 1517, y: 367 });
    assert_eq!(n.switch_timeout_ms(), 1200);
    assert_eq!(n.scroll_timeout_ms(), 300);
    assert_eq!(n.poll_interval_ms(), 15);
}

#[test]
fn poll_becomes_stable() {
    let p = PollSpec { interval_ms: 10, timeout_ms: 100, needed_runs: 2 };
    let mut s = PollState::start();
    assert_eq!(s.sample(p, true), PollVerdict::Pending);
    assert_eq!(s.sample(p, false), PollVerdict::Pending);
    assert_eq!(s.sample(p, false), PollVerdict::Stable);
}

#[test]
fn poll_times_out() {
    let p = PollSpec { interval_ms: 10, timeout_ms: 30, needed_runs: 5 };
    let mut s = PollState::start();
    assert_eq!(s.sample(p, true), PollVerdict::Pending);
    assert_eq!(s.sample(p, false), PollVerdict::Pending);
    assert_eq!(s.sample(p, true), PollVerdict::TimedOut);
    assert_eq!(s.elapsed_ms, 30);
}

#[test]
fn retry_recovers_before_bound() {
    let readings = vec![None, None, Some(7)];
    assert_eq!(resolve_field(&readings, 3), (FieldValue::Known(7), 3));
}

#[test]
fn retry_exhaustion_degrades() {
    let readings = vec![None, None, None, None, Some(7)];
    assert_eq!(resolve_field(&readings, 3), (FieldValue::Degraded, 4));
    assert_eq!(resolve_field(&vec![], 3), (FieldValue::Degraded, 0));
}

#[test]
fn record_flags_degraded_sub_stat() {
    let subs = vec![
        SubStat { name: FieldValue::Known(1), value: FieldValue::Known(39) },
        SubStat { name: FieldValue::Known(2), value: FieldValue::Degraded },
    ];
    let r = ArtifactRecord::new(
        FieldValue::Known(1),
        FieldValue::Known(1),
        0,
        FieldValue::Known(5),
        FieldValue::Known(20),
        FieldValue::Known(2),
        FieldValue::Known(3),
        subs,
        FieldValue::Known(1),
    );
    assert!(r.confidence_degraded);
    let clean = ArtifactRecord::new(
        FieldValue::Known(1),
        FieldValue::Known(1),
        0,
        FieldValue::Known(5),
        FieldValue::Known(20),
        FieldValue::Known(2),
        FieldValue::Known(3),
        vec![],
        FieldValue::Known(1),
    );
    assert!(!clean.confidence_degraded);
}

#[test]
fn config_validation() {
    let ok = ScanConfig::default_config();
    assert_eq!(ok.validate(), Ok(()));
    let mut c = ok;
    c.speed_level = 0;
    assert_eq!(c.validate(), Err(ConfigError::SpeedLevel));
    let mut c = ok;
    c.min_star = 6;
    assert_eq!(c.validate(), Err(ConfigError::MinStar));
    let mut c = ok;
    c.max_wait_switch = 9;
    assert_eq!(c.validate(), Err(ConfigError::MaxWaitSwitch));
    let mut c = ok;
    c.target_count = Some(1501);
    assert_eq!(c.validate(), Err(ConfigError::TargetCount));
    c.target_count = Some(1500);
    assert_eq!(c.validate(), Ok(()));
    let mut c = ok;
    c.max_row = 0;
    assert_eq!(c.validate(), Err(ConfigError::MaxRow));
    let mut c = ok;
    c.scroll_retry_limit = 0;
    assert_eq!(c.validate(), Err(ConfigError::ScrollRetryLimit));
}

#[test]
fn lock_flip_retries_then_succeeds() {
    let req = LockToggleRequest::new(&vec![9, 0, 3]);
    assert_eq!(req.indices(), &vec![0, 3, 9]);
    let (mut c, mut a) = LockFlipController::new(req, 8, 3);
    let mut fails_for_nine = 2;
    loop {
        a = match a {
            LockAction::SelectAndToggle { index, .. } | LockAction::Toggle { index } => {
                let flipped = if index == 9 && fails_for_nine > 0 {
                    fails_for_nine -= 1;
                    false
                } else {
                    true
                };
                c.step(flipped)
            }
            LockAction::Finish => break,
        }
    }
    assert_eq!(
        c.report(),
        &vec![(0, LockOutcome::Flipped), (3, LockOutcome::Flipped), (9, LockOutcome::Flipped)]
    );
    assert_eq!(c.toggles_at(2), Some(3));
    assert_eq!(c.toggles_at(0), Some(1));
    assert_eq!(c.navigations(), 3);
}

#[test]
fn lock_flip_records_failure_and_goes_on() {
    let req = LockToggleRequest::new(&vec![12, 1]);
    let (mut c, a) = LockFlipController::new(req, 8, 2);
    assert_eq!(a, LockAction::SelectAndToggle { index: 1, page: 0, slot: 1 });
    assert_eq!(c.step(false), LockAction::Toggle { index: 1 });
    assert_eq!(c.step(false), LockAction::SelectAndToggle { index: 12, page: 1, slot: 4 });
    assert_eq!(c.step(true), LockAction::Finish);
    assert!(c.is_done());
    assert_eq!(c.report(), &vec![(1, LockOutcome::Failed), (12, LockOutcome::Flipped)]);
}

#[test]
fn empty_lock_request_finishes_at_once() {
    let (c, a) = LockFlipController::new(LockToggleRequest::new(&vec![]), 8, 3);
    assert_eq!(a, LockAction::Finish);
    assert!(c.is_done());
    assert_eq!(c.navigations(), 0);
}

#[test]
fn lock_file_parsing() {
    let r = parse_lock_request("[9, 0, 3, 3]").unwrap();
    assert_eq!(r.indices(), &vec![0, 3, 9]);
    assert_eq!(parse_lock_request("[1, -2]"), Err(LockFileError::Malformed));
    assert_eq!(parse_lock_request("{}"), Err(LockFileError::Malformed));
    assert_eq!(parse_lock_request("[4294967296]"), Err(LockFileError::Malformed));
    assert_eq!(parse_lock_request("[]").unwrap().indices(), &Vec::<u32>::new());
}

#[test]
fn version_from_manifest() {
    let m = "[package]\nname = \"yas\"\nversion = \"0.1.5\"\nedition = \"2018\"\n";
    assert_eq!(get_version(m), "0.1.5");
    assert_eq!(get_version("[package]\nname = \"x\"\n"), "unknown_version");
    assert_eq!(get_version("version = \"2.0\"\r\n"), "2.0");
    assert_eq!(get_version("version = 3\nversion = \"4\""), "4");
    assert_eq!(get_version("version = x\"y"), "version = x");
    assert_eq!(get_version(""), "unknown_version");
}
