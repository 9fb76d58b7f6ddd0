use randcast::switcher::{Event, SlotState, Switcher};

fn paths(names: &[&str]) -> Vec<String> {
    names.iter().map(|s| s.to_string()).collect()
}

fn count_active(s: &Switcher) -> usize {
    let mut n = 0;
    for i in 0..s.slot_count() {
        if s.state_of(i) == SlotState::Active {
            n += 1;
        }
    }
    n
}

#[test]
fn init_marks_slot_zero_active() {
    let s = Switcher::new(paths(&["/a", "/b", "/c"]));
    assert_eq!(s.slot_count(), 3);
    assert_eq!(s.active_index(), 0);
    assert_eq!(s.state_of(0), SlotState::Active);
    assert_eq!(s.state_of(1), SlotState::Building);
    assert_eq!(s.state_of(2), SlotState::Building);
    assert_eq!(count_active(&s), 1);
}

#[test]
fn start_announces_first_item() {
    let mut s = Switcher::new(paths(&["/a", "/b"]));
    let e = s.start();
    assert_eq!(e, Event::Playing { path: "/a".to_string() });
    assert_eq!(e.path(), "/a");
    assert!(s.on_air());
}

#[test]
fn boundary_promotes_prerolled_sibling() {
    let mut s = Switcher::new(paths(&["/a", "/b"]));
    s.start();
    assert_eq!(s.preroll_done(1), None);
    assert_eq!(s.state_of(1), SlotState::PreRolled);

    let out = s.item_end();
    assert_eq!(out.freed, 0);
    assert_eq!(out.ended, Event::Ended { path: "/a".to_string() });
    assert_eq!(out.playing, Some(Event::Playing { path: "/b".to_string() }));
    assert_eq!(s.active_index(), 1);
    assert_eq!(s.state_of(0), SlotState::Draining);
    assert_eq!(count_active(&s), 1);
}

#[test]
fn freed_slot_recycles_and_prerolls() {
    let mut s = Switcher::new(paths(&["/a", "/b"]));
    s.start();
    s.preroll_done(1);
    let out = s.item_end();
    s.drained(out.freed);
    assert_eq!(s.state_of(out.freed), SlotState::Recycling);
    s.bind_next(out.freed, "/c".to_string());
    assert_eq!(s.state_of(out.freed), SlotState::Building);
    assert_eq!(s.path_of(out.freed), "/c");
    assert_eq!(s.preroll_done(out.freed), None);
    assert_eq!(s.state_of(out.freed), SlotState::PreRolled);
    assert_eq!(count_active(&s), 1);
}

#[test]
fn stall_keeps_selection_and_promotes_first_ready() {
    let mut s = Switcher::new(paths(&["/a", "/b"]));
    s.start();
    let out = s.item_end();
    assert_eq!(out.playing, None);
    assert!(!s.on_air());
    assert_eq!(s.active_index(), 0);
    assert_eq!(count_active(&s), 1);

    let promoted = s.preroll_done(1);
    assert_eq!(promoted, Some(Event::Playing { path: "/b".to_string() }));
    assert_eq!(s.active_index(), 1);
    assert!(s.on_air());
    assert_eq!(count_active(&s), 1);
}

#[test]
fn stalled_slot_rebinds_and_resumes_itself() {
    let mut s = Switcher::new(paths(&["/a", "/b"]));
    s.start();
    let out = s.item_end();
    assert_eq!(out.playing, None);
    s.bind_next(0, "/next".to_string());
    assert_eq!(s.state_of(0), SlotState::Active);
    let resumed = s.preroll_done(0);
    assert_eq!(resumed, Some(Event::Playing { path: "/next".to_string() }));
    assert!(s.on_air());
}

#[test]
fn repeated_skips_collapse_to_one_boundary() {
    let mut s = Switcher::new(paths(&["/a", "/b"]));
    s.start();
    s.preroll_done(1);
    for _ in 0..10 {
        s.receive_skip();
    }
    assert!(s.take_skip());
    let out = s.item_end();
    assert!(out.playing.is_some());
    assert!(!s.take_skip());
    assert!(!s.take_skip());
}

#[test]
fn skip_before_start_stays_queued() {
    let mut s = Switcher::new(paths(&["/a", "/b"]));
    s.receive_skip();
    assert!(!s.take_skip());
    s.start();
    assert!(s.take_skip());
}

#[test]
fn events_alternate_and_ends_match() {
    let mut s = Switcher::new(paths(&["/a", "/b", "/c"]));
    let mut log: Vec<Event> = Vec::new();
    log.push(s.start());
    s.preroll_done(1);
    s.preroll_done(2);
    for round in 0..4 {
        let out = s.item_end();
        log.push(out.ended);
        log.push(out.playing.expect("a sibling was pre-rolled"));
        s.drained(out.freed);
        s.bind_next(out.freed, format!("/r{round}"));
        s.preroll_done(out.freed);
    }
    log.push(s.abort());

    assert_eq!(log.len() % 2, 0);
    for (j, e) in log.iter().enumerate() {
        let starts = matches!(e, Event::Playing { .. });
        assert_eq!(starts, j % 2 == 0, "event {j} breaks alternation");
    }
    for pair in log.chunks(2) {
        let Event::Playing { path: started } = &pair[0] else { panic!("expected Playing") };
        let Event::Ended { path: ended } = &pair[1] else { panic!("expected Ended") };
        assert_eq!(started, ended, "an item ended under another path");
    }
}

#[test]
fn boundary_prefers_nearest_prerolled_sibling() {
    let mut s = Switcher::new(paths(&["/a", "/b", "/c"]));
    s.start();
    s.preroll_done(2);
    let out = s.item_end();
    assert_eq!(out.playing, Some(Event::Playing { path: "/c".to_string() }));
    assert_eq!(s.active_index(), 2);
}

#[test]
fn abort_closes_the_open_item() {
    let mut s = Switcher::new(paths(&["/a", "/b"]));
    s.start();
    let e = s.abort();
    assert_eq!(e, Event::Ended { path: "/a".to_string() });
    assert!(!s.on_air());
}

#[test]
fn failed_sibling_goes_straight_to_recycling() {
    let mut s = Switcher::new(paths(&["/a", "/b"]));
    s.start();
    s.preroll_done(1);
    assert_eq!(s.state_of(1), SlotState::PreRolled);
    s.slot_failed(1);
    assert_eq!(s.state_of(1), SlotState::Recycling);
    s.bind_next(1, "/c".to_string());
    assert_eq!(s.state_of(1), SlotState::Building);
    assert_eq!(s.path_of(1), "/c");
    assert_eq!(count_active(&s), 1);
}
