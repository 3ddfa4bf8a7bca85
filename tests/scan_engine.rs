use yas::config::ScanConfig;
use yas::record::{ArtifactRecord, FieldValue};
use yas::scan::{ScanAction, ScanEngine, ScanEvent, Termination};

fn item(name: u32, star: u32, level: u32, slot: u32) -> ArtifactRecord {
    ArtifactRecord::new(
        FieldValue::Known(name),
        FieldValue::Known(1),
        slot,
        FieldValue::Known(star),
        FieldValue::Known(level),
        FieldValue::Known(2),
        FieldValue::Known(466),
        vec![],
        FieldValue::Known(0),
    )
}

fn config(target: Option<u32>) -> ScanConfig {
    let mut c = ScanConfig::default_config();
    c.no_check = true;
    c.target_count = target;
    c.min_star = 1;
    c
}

/// Drives the engine: the k-th slot visited shows `frame(k)`; a page turn
/// changes the content unless `scroll_ok(page)` says otherwise.
fn drive(
    engine: &mut ScanEngine,
    counter: Option<u32>,
    frame: &dyn Fn(usize) -> ArtifactRecord,
    scroll_ok: &dyn Fn(u32) -> bool,
) -> (Termination, usize) {
    let mut action = engine.step(ScanEvent::Begin);
    let mut k: usize = 0;
    loop {
        action = match action {
            ScanAction::CheckAnchor => engine.step(ScanEvent::AnchorChecked(true)),
            ScanAction::ReadCounter => engine.step(ScanEvent::CounterRead(counter)),
            ScanAction::VisitSlot { .. } => {
                let r = frame(k);
                k += 1;
                engine.step(ScanEvent::SlotRead(r))
            }
            ScanAction::ScrollPage => {
                let page = engine.page();
                engine.step(ScanEvent::ScrollSettled(scroll_ok(page)))
            }
            ScanAction::Finish(t) => return (t, k),
            ScanAction::Ignore => panic!("event ignored"),
        }
    }
}

#[test]
fn end_to_end_forty_five_items() {
    let mut e = ScanEngine::new(config(Some(45)), 8);
    let (t, visited) = drive(&mut e, None, &|k| item(k as u32, 5, 20, (k % 8) as u32), &|_| true);
    assert_eq!(t, Termination::TargetReached);
    assert_eq!(visited, 45);
    assert_eq!(e.results().len(), 45);
    assert_eq!(e.scrolls(), 5);
    // pages 0..=5: six pages, the last one partial
    assert_eq!(e.page(), 5);
}

#[test]
fn wraparound_stops_after_one_period() {
    let period = 13;
    let mut e = ScanEngine::new(config(None), 8);
    let (t, visited) =
        drive(&mut e, None, &|k| item((k % period) as u32, 5, 20, 0), &|_| true);
    assert_eq!(t, Termination::Wrapped);
    assert_eq!(e.results().len(), period);
    assert_eq!(visited, period + 1);
    for (i, r) in e.results().iter().enumerate() {
        assert_eq!(r.name, FieldValue::Known(i as u32));
    }
}

#[test]
fn counter_reading_sets_target() {
    let mut c = config(None);
    c.no_check = false;
    let mut e = ScanEngine::new(c, 8);
    let (t, visited) = drive(&mut e, Some(10), &|k| item(k as u32, 5, 20, 0), &|_| true);
    assert_eq!(t, Termination::TargetReached);
    assert_eq!(visited, 10);
    assert_eq!(e.scrolls(), 1);
}

#[test]
fn filtered_slots_still_advance() {
    let mut c = config(None);
    c.min_star = 4;
    c.min_level = 10;
    let mut e = ScanEngine::new(c, 8);
    // every third item has three stars, every fifth is level 0
    let frame = |k: usize| {
        let star = if k % 3 == 0 { 3 } else { 5 };
        let level = if k % 5 == 0 { 0 } else { 20 };
        item((k % 20) as u32, star, level, 0)
    };
    let (t, visited) = drive(&mut e, None, &frame, &|_| true);
    assert_eq!(t, Termination::Wrapped);
    assert_eq!(visited, 21);
    assert_eq!(e.visited(), 20);
    let kept: Vec<u32> = e
        .results()
        .iter()
        .map(|r| match r.name {
            FieldValue::Known(n) => n,
            FieldValue::Degraded => panic!("degraded"),
        })
        .collect();
    let expected: Vec<u32> = (0..20u32).filter(|k| k % 3 != 0 && k % 5 != 0).collect();
    assert_eq!(kept, expected);
}

#[test]
fn degraded_star_is_not_filtered() {
    let mut c = config(Some(1));
    c.min_star = 5;
    let mut e = ScanEngine::new(c, 8);
    let r = ArtifactRecord::new(
        FieldValue::Known(1),
        FieldValue::Known(1),
        0,
        FieldValue::Degraded,
        FieldValue::Known(20),
        FieldValue::Known(2),
        FieldValue::Known(3),
        vec![],
        FieldValue::Known(0),
    );
    assert!(r.confidence_degraded);
    e.step(ScanEvent::Begin);
    assert_eq!(e.step(ScanEvent::SlotRead(r)), ScanAction::Finish(Termination::TargetReached));
    assert_eq!(e.results().len(), 1);
}

#[test]
fn scroll_stuck_keeps_partial_results() {
    let mut e = ScanEngine::new(config(Some(48)), 8);
    // the turn after the third page (index 2) never changes the content
    let (t, visited) = drive(&mut e, None, &|k| item(k as u32, 5, 20, 0), &|p| p != 2);
    assert_eq!(t, Termination::ScrollStuck);
    assert_eq!(visited, 24);
    assert_eq!(e.results().len(), 24);
    assert_eq!(e.scrolls(), 2 + 3);
}

#[test]
fn identical_frames_give_identical_results() {
    let run = || {
        let mut e = ScanEngine::new(config(None), 8);
        let r = drive(&mut e, None, &|k| item((k * 7 % 30) as u32, 4 + (k % 2) as u32, 20, 0), &|_| true);
        (r, e.into_results())
    };
    let (a, ra) = run();
    let (b, rb) = run();
    assert_eq!(a, b);
    assert_eq!(ra, rb);
}

#[test]
fn pages_exhausted_at_max_row() {
    let mut c = config(None);
    c.max_row = 2;
    let mut e = ScanEngine::new(c, 8);
    let (t, visited) = drive(&mut e, None, &|k| item(k as u32, 5, 20, 0), &|_| true);
    assert_eq!(t, Termination::PagesExhausted);
    assert_eq!(visited, 16);
    assert_eq!(e.results().len(), 16);
}

#[test]
fn precondition_failure_aborts_before_any_slot() {
    let mut c = config(None);
    c.no_check = false;
    let mut e = ScanEngine::new(c, 8);
    assert_eq!(e.step(ScanEvent::Begin), ScanAction::CheckAnchor);
    assert_eq!(
        e.step(ScanEvent::AnchorChecked(false)),
        ScanAction::Finish(Termination::PreconditionFailed)
    );
    assert_eq!(e.visited(), 0);
    assert_eq!(e.termination(), Some(Termination::PreconditionFailed));
}

#[test]
fn focus_lost_keeps_partial_results() {
    let mut e = ScanEngine::new(config(None), 8);
    assert_eq!(e.step(ScanEvent::Begin), ScanAction::ReadCounter);
    assert_eq!(e.step(ScanEvent::CounterRead(None)), ScanAction::VisitSlot { slot: 0, page: 0 });
    assert_eq!(e.step(ScanEvent::SlotRead(item(1, 5, 20, 0))), ScanAction::VisitSlot { slot: 1, page: 0 });
    assert_eq!(e.step(ScanEvent::SlotRead(item(2, 5, 20, 1))), ScanAction::VisitSlot { slot: 2, page: 0 });
    assert_eq!(e.step(ScanEvent::FocusLost), ScanAction::Finish(Termination::FocusLost));
    assert_eq!(e.step(ScanEvent::SlotRead(item(3, 5, 20, 2))), ScanAction::Finish(Termination::FocusLost));
    assert_eq!(e.results().len(), 2);
}

#[test]
fn cancel_between_slots() {
    let mut e = ScanEngine::new(config(Some(5)), 8);
    assert_eq!(e.step(ScanEvent::Begin), ScanAction::VisitSlot { slot: 0, page: 0 });
    e.step(ScanEvent::SlotRead(item(1, 5, 20, 0)));
    assert_eq!(e.step(ScanEvent::Cancel), ScanAction::Finish(Termination::Cancelled));
    assert_eq!(e.results().len(), 1);
}

#[test]
fn out_of_phase_event_is_ignored() {
    let mut e = ScanEngine::new(config(None), 8);
    assert_eq!(e.step(ScanEvent::ScrollSettled(true)), ScanAction::Ignore);
    assert_eq!(e.step(ScanEvent::Begin), ScanAction::ReadCounter);
    assert_eq!(e.step(ScanEvent::Begin), ScanAction::Ignore);
}
