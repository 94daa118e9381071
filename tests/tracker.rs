use progress_log::tracker::EMIT_INTERVAL_NANOS;
use progress_log::{Level, Line, Log, MessageLevel, Unit};

const SECOND: u64 = 1_000_000_000;

fn text_of(line: Option<Line>) -> Option<(Level, String)> {
    match line {
        Some(Line::Text { level, text }) => Some((level, text)),
        Some(Line::Unit { .. }) => panic!("unexpected unit line"),
        None => None,
    }
}

#[test]
fn burst_then_gap_scenario() {
    let mut log = Log::new("build", None);
    assert_eq!(text_of(log.set_at(0, 0)), Some((Level::Info, "build → 0".to_string())));
    assert_eq!(text_of(log.set_at(1, 0)), None);
    assert_eq!(log.step(), 1);
    assert_eq!(text_of(log.set_at(2, 6 * SECOND / 10)), Some((Level::Info, "build → 2".to_string())));
}

#[test]
fn total_scenario() {
    let mut log = Log::new("build", None);
    log.init(Some(100), None);
    assert_eq!(text_of(log.set_at(50, 0)), Some((Level::Info, "build → 50 / 100".to_string())));
}

#[test]
fn failure_message_scenario() {
    let mut log = Log::new("build", None);
    let line = log.message(MessageLevel::Failure, "disk full");
    assert_eq!(text_of(Some(line)), Some((Level::Error, "𐄂build → disk full".to_string())));
}

#[test]
fn burst_within_interval_emits_once() {
    let mut log = Log::new("task", None);
    let t0: u64 = 5 * SECOND;
    assert!(log.set_at(1, t0).is_some());
    assert!(log.set_at(2, t0 + 1).is_none());
    assert!(log.set_at(3, t0 + SECOND / 4).is_none());
    assert!(log.set_at(4, t0 + EMIT_INTERVAL_NANOS).is_none());
    assert_eq!(log.last_emit(), Some(t0));
    assert!(log.set_at(5, t0 + EMIT_INTERVAL_NANOS + 1).is_some());
    assert_eq!(log.last_emit(), Some(t0 + EMIT_INTERVAL_NANOS + 1));
    assert_eq!(log.step(), 5);
}

#[test]
fn throttle_counts_from_last_emission_not_last_call() {
    let mut log = Log::new("task", None);
    assert!(log.set_at(1, 0).is_some());
    assert!(log.set_at(2, 3 * SECOND / 10).is_none());
    assert!(log.set_at(3, 6 * SECOND / 10).is_some());
}

#[test]
fn clock_going_back_suppresses() {
    let mut log = Log::new("task", None);
    assert!(log.set_at(1, 10 * SECOND).is_some());
    assert!(log.set_at(2, SECOND).is_none());
    assert_eq!(log.step(), 2);
    assert_eq!(log.last_emit(), Some(10 * SECOND));
}

#[test]
fn first_set_always_emits() {
    for now in [0u64, 1, SECOND, u64::MAX] {
        let mut log = Log::new("task", Some(0));
        assert_eq!(log.last_emit(), None);
        assert!(log.set_at(7, now).is_some());
        assert_eq!(log.last_emit(), Some(now));
    }
}

#[test]
fn first_set_on_wall_clock_emits() {
    let mut log = Log::new("wall", None);
    assert_eq!(text_of(log.set(3)), Some((Level::Info, "wall → 3".to_string())));
    assert!(log.last_emit().is_some());
    assert_eq!(log.step(), 3);
}

#[test]
fn inc_by_after_set() {
    let mut log = Log::new("task", None);
    assert!(log.set_at(10, 0).is_some());
    assert!(log.inc_by_at(5, 1).is_none());
    assert_eq!(log.step(), 15);
    assert_eq!(text_of(log.inc_by_at(5, SECOND)), Some((Level::Info, "task → 20".to_string())));
    assert_eq!(log.step(), 20);
}

#[test]
fn inc_by_on_wall_clock() {
    let mut log = Log::new("task", None);
    log.set_at(4, 0);
    log.inc_by(6);
    assert_eq!(log.step(), 10);
}

#[test]
fn child_name_depth_and_independence() {
    let mut parent = Log::new("build", Some(3));
    parent.init(Some(9), None);
    parent.set_at(2, 0);
    let mut child = parent.add_child("compile");
    assert_eq!(child.name(), "build::compile");
    assert_eq!(child.depth(), 1);
    assert_eq!(child.max_depth(), 3);
    assert_eq!(child.step(), 0);
    assert_eq!(child.total(), None);
    assert!(child.unit().is_none());
    assert_eq!(child.last_emit(), None);
    child.init(Some(50), Some(Unit { label: "files".to_string() }));
    child.set_at(40, 0);
    assert_eq!(parent.step(), 2);
    assert_eq!(parent.total(), Some(9));
    assert!(parent.unit().is_none());
    assert_eq!(parent.name(), "build");
    let grandchild = child.add_child("link");
    assert_eq!(grandchild.name(), "build::compile::link");
    assert_eq!(grandchild.depth(), 2);
}

#[test]
fn depth_limit_of_one() {
    let mut root = Log::new("root", Some(1));
    let mut child = root.add_child("a");
    let mut grandchild = child.add_child("b");
    assert!(root.set_at(1, 0).is_some());
    assert!(child.set_at(1, 0).is_some());
    assert!(grandchild.set_at(1, 0).is_none());
    assert!(grandchild.set_at(2, 10 * SECOND).is_none());
    assert!(grandchild.inc_by_at(3, 20 * SECOND).is_none());
    assert_eq!(grandchild.step(), 5);
    assert_eq!(grandchild.last_emit(), None);
}

#[test]
fn unbounded_depth_by_default() {
    let root = Log::new("r", None);
    assert_eq!(root.max_depth(), usize::MAX);
    assert_eq!(root.depth(), 0);
}

#[test]
fn messages_ignore_throttle_and_depth() {
    let mut root = Log::new("r", Some(0));
    let mut child = root.add_child("c");
    assert!(child.set_at(1, 0).is_none());
    let info = child.message(MessageLevel::Info, "hello");
    assert_eq!(text_of(Some(info)), Some((Level::Info, "ℹr::c → hello".to_string())));
    let ok = child.message(MessageLevel::Success, "done");
    assert_eq!(text_of(Some(ok)), Some((Level::Info, "✓r::c → done".to_string())));
    assert!(root.set_at(1, 0).is_some());
    let fail = root.message(MessageLevel::Failure, "");
    assert_eq!(text_of(Some(fail)), Some((Level::Error, "𐄂r → ".to_string())));
    assert_eq!(root.last_emit(), Some(0));
}

#[test]
fn unit_line_carries_step_and_total() {
    let mut log = Log::new("dl", None);
    log.init(Some(1000), Some(Unit { label: "bytes".to_string() }));
    match log.set_at(250, 0) {
        Some(Line::Unit { prefix, step, total }) => {
            assert_eq!(prefix, "dl → ");
            assert_eq!(step, 250);
            assert_eq!(total, Some(1000));
        }
        _ => panic!("expected a unit line"),
    }
    assert_eq!(log.unit().map(|u| u.label.clone()), Some("bytes".to_string()));
    log.init(None, None);
    assert!(log.unit().is_none());
    assert_eq!(log.step(), 250);
    assert_eq!(text_of(log.set_at(7, SECOND)), Some((Level::Info, "dl → 7".to_string())));
}

#[test]
fn large_numbers_render_in_decimal() {
    let mut log = Log::new("n", None);
    log.init(Some(usize::MAX), None);
    let expected = format!("n → 1234567890 / {}", usize::MAX);
    assert_eq!(text_of(log.set_at(1234567890, 0)), Some((Level::Info, expected)));
    let mut zero = Log::new("z", None);
    zero.init(Some(10), None);
    assert_eq!(text_of(zero.set_at(0, 0)), Some((Level::Info, "z → 0 / 10".to_string())));
}

#[test]
fn push_decimal_appends() {
    let mut s = "x=".to_string();
    progress_log::render::push_decimal(&mut s, 9051);
    assert_eq!(s, "x=9051");
}
