use vstd::prelude::*;

use crate::render::{decimal, push_decimal};

verus! {

/// Least time, in nanoseconds, that must have passed since the last step line
/// before another one is emitted.
pub const EMIT_INTERVAL_NANOS: u64 = 500_000_000;

/// The kind of a one-shot status message.
#[derive(Clone, Copy, Debug, PartialEq, Eq, Structural)]
pub enum MessageLevel {
    Info,
    Failure,
    Success,
}

/// The level at which a line goes to the log sink.
#[derive(Clone, Copy, Debug, PartialEq, Eq, Structural)]
pub enum Level {
    Info,
    Error,
}

/// A display-formatting handle for the tracked quantity. The tracker only
/// carries it; rendering a step with it is left to the log's consumer.
#[derive(Debug)]
pub struct Unit {
    pub label: String,
}

/// A line that a tracker hands to the log sink.
#[derive(Debug)]
pub enum Line {
    /// A finished line of text.
    Text { level: Level, text: String },
    /// An informational line: `prefix` followed by the tracker's unit
    /// rendering `step` out of `total`.
    Unit { prefix: String, step: usize, total: Option<usize> },
}

/// What a line holds, as the contracts see it.
pub ghost enum LineView {
    Text { level: Level, text: Seq<char> },
    Unit { prefix: Seq<char>, step: usize, total: Option<usize> },
}

impl View for Line {
    type V = LineView;

    open spec fn view(&self) -> LineView {
        match self {
            Line::Text { level, text } => LineView::Text { level: *level, text: text@ },
            Line::Unit { prefix, step, total } => LineView::Unit {
                prefix: prefix@,
                step: *step,
                total: *total,
            },
        }
    }
}

/// A throttled progress tracker that reports through a leveled log.
pub struct Log {
    name: String,
    max: Option<usize>,
    unit: Option<Unit>,
    last_set: Option<u64>,
    step: usize,
    current_level: usize,
    max_level: usize,
}

/// What a tracker holds, as the contracts see it.
pub ghost struct LogView {
    pub name: Seq<char>,
    pub depth: usize,
    pub max_depth: usize,
    pub total: Option<usize>,
    pub unit: Option<Seq<char>>,
    pub last_emit: Option<u64>,
    pub step: usize,
}

impl View for Log {
    type V = LogView;

    closed spec fn view(&self) -> LogView {
        LogView {
            name: self.name@,
            depth: self.current_level,
            max_depth: self.max_level,
            total: self.max,
            unit: unit_label(self.unit),
            last_emit: self.last_set,
            step: self.step,
        }
    }
}

/// The label of a unit, if there is one.
pub open spec fn unit_label(unit: Option<Unit>) -> Option<Seq<char>> {
    match unit {
        Some(u) => Some(u.label@),
        None => None,
    }
}

/// The separator between a parent's name and a child's own name.
pub open spec fn separator() -> Seq<char> {
    seq![':', ':']
}

/// The separator between a tracker's name and what it reports.
pub open spec fn arrow() -> Seq<char> {
    seq![' ', '\u{2192}', ' ']
}

/// The glyph that opens a status message of the given kind.
pub open spec fn glyph(level: MessageLevel) -> char {
    match level {
        MessageLevel::Info => '\u{2139}',
        MessageLevel::Failure => '\u{10102}',
        MessageLevel::Success => '\u{2713}',
    }
}

/// The level at which a status message of the given kind is logged.
pub open spec fn message_level(level: MessageLevel) -> Level {
    match level {
        MessageLevel::Failure => Level::Error,
        _ => Level::Info,
    }
}

/// A fresh root tracker.
pub open spec fn root_view(name: Seq<char>, max_depth: Option<usize>) -> LogView {
    LogView {
        name,
        depth: 0,
        max_depth: match max_depth {
            Some(m) => m,
            None => usize::MAX,
        },
        total: None,
        unit: None,
        last_emit: None,
        step: 0,
    }
}

/// A fresh child of `parent` with its own name `name`.
pub open spec fn child_view(parent: LogView, name: Seq<char>) -> LogView {
    LogView {
        name: parent.name + separator() + name,
        depth: (parent.depth + 1) as usize,
        max_depth: parent.max_depth,
        total: None,
        unit: None,
        last_emit: None,
        step: 0,
    }
}

/// Time passed from `last` to `now`; a clock that went back counts as no time.
pub open spec fn elapsed(last: u64, now: u64) -> int {
    if now >= last {
        now - last
    } else {
        0
    }
}

/// Whether a step line is due at `now`, given when the last one was emitted.
pub open spec fn due(last_emit: Option<u64>, now: u64) -> bool {
    match last_emit {
        None => true,
        Some(t) => elapsed(t, now) > EMIT_INTERVAL_NANOS,
    }
}

/// Whether a tracker in state `v` emits a step line when a step is set at `now`.
pub open spec fn emits(v: LogView, now: u64) -> bool {
    v.depth <= v.max_depth && due(v.last_emit, now)
}

/// The state after a step is set at `now`.
pub open spec fn after_set(v: LogView, step: usize, now: u64) -> LogView {
    LogView {
        step,
        last_emit: if emits(v, now) {
            Some(now)
        } else {
            v.last_emit
        },
        ..v
    }
}

/// The line that reports `step` for a tracker in state `v`.
pub open spec fn step_line(v: LogView, step: usize) -> LineView {
    if v.unit is Some {
        LineView::Unit { prefix: v.name + arrow(), step, total: v.total }
    } else {
        match v.total {
            Some(t) => LineView::Text {
                level: Level::Info,
                text: v.name + arrow() + decimal(step as nat) + seq![' ', '/', ' '] + decimal(
                    t as nat,
                ),
            },
            None => LineView::Text {
                level: Level::Info,
                text: v.name + arrow() + decimal(step as nat),
            },
        }
    }
}

/// What setting `step` at `now` hands to the log: a line exactly when one is due.
pub open spec fn set_output(r: Option<Line>, v: LogView, step: usize, now: u64) -> bool {
    if emits(v, now) {
        r is Some && r.unwrap()@ == step_line(v, step)
    } else {
        r is None
    }
}

/// The line of a status message of kind `level` with text `text`.
pub open spec fn message_line(v: LogView, level: MessageLevel, text: Seq<char>) -> LineView {
    LineView::Text {
        level: message_level(level),
        text: seq![glyph(level)] + v.name + arrow() + text,
    }
}


/// Appends the separator between a tracker's name and what it reports.
fn push_arrow(out: &mut String)
    ensures
        final(out)@ == old(out)@ + arrow(),
{
    proof {
        reveal_strlit(" \u{2192} ");
    }
    out.append(" \u{2192} ");
}

/// Relies on std::time::SystemTime::now and SystemTime::duration_since: the
/// wall-clock time in nanoseconds since the Unix epoch, zero for a clock set
/// before it. Nothing is known of the value.
#[verifier::external_body]
fn clock_nanos() -> (r: u64) {
    std::time::SystemTime::now()
        .duration_since(std::time::UNIX_EPOCH)
        .map(|d| d.as_nanos() as u64)
        .unwrap_or(0)
}

impl Log {
    /// A root tracker at depth 0, named `name`, that emits step lines up to depth
    /// `max_level` (at every depth when `None`).
    pub fn new(name: &str, max_level: Option<usize>) -> (r: Log)
        ensures
            r@ == root_view(name@, max_level),
    {
        Log {
            name: name.to_owned(),
            current_level: 0,
            max_level: match max_level {
                Some(m) => m,
                None => usize::MAX,
            },
            max: None,
            step: 0,
            unit: None,
            last_set: None,
        }
    }

    /// A fresh tracker one level below this one, named `<name of this>::<name>`,
    /// with the same maximum depth. This tracker is left as it is.
    pub fn add_child(&mut self, name: &str) -> (r: Log)
        requires
            old(self)@.depth < usize::MAX,
        ensures
            r@ == child_view(old(self)@, name@),
            *final(self) == *old(self),
    {
        let mut full = self.name.clone();
        proof {
            reveal_strlit("::");
        }
        full.append("::");
        full.append(name);
        assert(full@ =~= self@.name + separator() + name@);
        Log {
            name: full,
            current_level: self.current_level + 1,
            max_level: self.max_level,
            step: 0,
            max: None,
            unit: None,
            last_set: None,
        }
    }

    /// Sets the total and the unit, replacing earlier ones; the step and the
    /// throttle are left as they are.
    pub fn init(&mut self, max: Option<usize>, unit: Option<Unit>)
        ensures
            final(self)@ == (LogView { total: max, unit: unit_label(unit), ..old(self)@ }),
    {
        self.max = max;
        self.unit = unit;
    }

    /// Advances the current step by `step`, at time `now`, as `set_at` does.
    pub fn inc_by_at(&mut self, step: usize, now: u64) -> (r: Option<Line>)
        requires
            old(self)@.step + step <= usize::MAX,
        ensures
            final(self)@ == after_set(old(self)@, (old(self)@.step + step) as usize, now),
            set_output(r, old(self)@, (old(self)@.step + step) as usize, now),
    {
        let next = self.step + step;
        self.set_at(next, now)
    }

    /// Sets the current step to `step` at the present wall-clock time: see `set_at`.
    pub fn set(&mut self, step: usize) -> (r: Option<Line>)
        ensures
            exists|now: u64|
                final(self)@ == after_set(old(self)@, step, now) && set_output(
                    r,
                    old(self)@,
                    step,
                    now,
                ),
    {
        let now = clock_nanos();
        self.set_at(step, now)
    }

    /// Advances the current step by `step` at the present wall-clock time: see
    /// `inc_by_at`.
    pub fn inc_by(&mut self, step: usize) -> (r: Option<Line>)
        requires
            old(self)@.step + step <= usize::MAX,
        ensures
            exists|now: u64|
                final(self)@ == after_set(old(self)@, (old(self)@.step + step) as usize, now)
                    && #[trigger] set_output(r, old(self)@, (old(self)@.step + step) as usize, now),
    {
        let now = clock_nanos();
        self.inc_by_at(step, now)
    }

    /// A status message of kind `level`, unthrottled and at every depth.
    pub fn message(&mut self, level: MessageLevel, message: &str) -> (r: Line)
        ensures
            r@ == message_line(old(self)@, level, message@),
            *final(self) == *old(self),
    {
        let mut text = String::new();
        proof {
            reveal_strlit("\u{2139}");
            reveal_strlit("\u{10102}");
            reveal_strlit("\u{2713}");
        }
        match level {
            MessageLevel::Info => text.append("\u{2139}"),
            MessageLevel::Failure => text.append("\u{10102}"),
            MessageLevel::Success => text.append("\u{2713}"),
        }
        text.append(self.name.as_str());
        push_arrow(&mut text);
        text.append(message);
        assert(text@ =~= seq![glyph(level)] + self@.name + arrow() + message@);
        Line::Text { level: if level == MessageLevel::Failure { Level::Error } else { Level::Info }, text }
    }
    /// The line that reports `step`, built from the tracker's name, total and unit.
    fn step_line(&self, step: usize) -> (r: Line)
        ensures
            r@ == step_line(self@, step),
    {
        let mut text = self.name.clone();
        push_arrow(&mut text);
        if self.unit.is_some() {
            Line::Unit { prefix: text, step, total: self.max }
        } else {
            push_decimal(&mut text, step);
            match self.max {
                Some(max) => {
                    proof {
                        reveal_strlit(" / ");
                    }
                    text.append(" / ");
                    push_decimal(&mut text, max);
                    assert(text@ =~= self@.name + arrow() + decimal(step as nat) + seq![' ', '/', ' ']
                        + decimal(max as nat));
                    Line::Text { level: Level::Info, text }
                },
                None => Line::Text { level: Level::Info, text },
            }
        }
    }

    /// Sets the current step to `step`, with `now` the time of the call in
    /// nanoseconds. A step line is returned when the tracker is not nested deeper
    /// than its maximum depth and no step line was emitted in the interval
    /// before `now`; the step is recorded either way.
    pub fn set_at(&mut self, step: usize, now: u64) -> (r: Option<Line>)
        ensures
            final(self)@ == after_set(old(self)@, step, now),
            set_output(r, old(self)@, step, now),
    {
        self.step = step;
        if self.current_level > self.max_level {
            return None;
        }
        let due = match self.last_set {
            None => true,
            Some(last) => {
                let passed: u64 = if now >= last {
                    now - last
                } else {
                    0
                };
                passed > EMIT_INTERVAL_NANOS
            },
        };
        if due {
            self.last_set = Some(now);
            Some(self.step_line(step))
        } else {
            None
        }
    }

    /// The tracker's full name.
    pub fn name(&self) -> (r: &str)
        ensures
            r@ == self@.name,
    {
        self.name.as_str()
    }

    /// The tracker's depth; a root is at depth 0.
    pub fn depth(&self) -> (r: usize)
        ensures
            r == self@.depth,
    {
        self.current_level
    }

    /// The deepest level at which step lines are emitted.
    pub fn max_depth(&self) -> (r: usize)
        ensures
            r == self@.max_depth,
    {
        self.max_level
    }

    /// The current step.
    pub fn step(&self) -> (r: usize)
        ensures
            r == self@.step,
    {
        self.step
    }

    /// The total, if one was set.
    pub fn total(&self) -> (r: Option<usize>)
        ensures
            r == self@.total,
    {
        self.max
    }

    /// The unit, if one was set.
    pub fn unit(&self) -> (r: Option<&Unit>)
        ensures
            r is Some == self@.unit is Some,
            r is Some ==> self@.unit == Some(r.unwrap().label@),
    {
        self.unit.as_ref()
    }

    /// When the last step line was emitted, in nanoseconds, if one was.
    pub fn last_emit(&self) -> (r: Option<u64>)
        ensures
            r == self@.last_emit,
    {
        self.last_set
    }
}

} // verus!
