//! What a record asks for: the kind of action that its name selects, the
//! values that this kind uses, and the pointer operations that carry it out.

use crate::record::{MouseAction, MouseActionView};
use crate::text::same_text;
use vstd::prelude::*;

verus! {

/// The pause between the two clicks of a double click, in milliseconds.
pub const DOUBLE_CLICK_PAUSE_MS: u64 = 10;

/// A button of the pointer device.
#[derive(Clone, Copy, Debug, PartialEq, Eq)]
pub enum Button {
    Left,
    Right,
    Middle,
}

/// A pair of coordinates, absolute or relative.
#[derive(Clone, Copy, Debug, PartialEq, Eq)]
pub struct Point {
    pub x: i32,
    pub y: i32,
}

/// The kinds of action that a name can select.
#[derive(Clone, Copy, Debug, PartialEq, Eq)]
pub enum ActionKind {
    Move,
    MoveRelative,
    Click,
    DoubleClick,
    RightClick,
    Drag,
    Release,
    Scroll,
    Wait,
    Unrecognized,
}

/// An action with the values that its kind uses and no others.
#[derive(Clone, Copy, Debug, PartialEq, Eq)]
pub enum Action {
    /// Move the pointer to `target`, where both coordinates were given.
    Move { target: Option<Point> },
    /// Move the pointer by `offset`, where both coordinates were given.
    MoveRelative { offset: Option<Point> },
    /// Click `button`, at `at` where both coordinates were given.
    Click { at: Option<Point>, button: Button },
    /// Click `button` twice with a short pause between.
    DoubleClick { at: Option<Point>, button: Button },
    /// Click the right button.
    RightClick { at: Option<Point> },
    /// Press the left button and keep it down.
    Drag { at: Option<Point> },
    /// Let the left button go.
    Release { at: Option<Point> },
    /// Scroll vertically by `units`: up where positive, down where negative.
    Scroll { units: i64 },
    /// Nothing but the delay.
    Wait,
    /// The name is none of the vocabulary: nothing is done.
    Unrecognized,
}

/// One call on the pointer device, or a pause.
#[derive(Clone, Copy, Debug, PartialEq, Eq)]
pub enum PointerOp {
    MoveTo { x: i32, y: i32 },
    MoveBy { dx: i32, dy: i32 },
    Press(Button),
    Release(Button),
    Click(Button),
    Scroll(i64),
    Pause(u64),
}

/// A record made ready to run: the pause that comes first, how often the
/// action's operations are then carried out, and the action.
#[derive(Clone, Copy, Debug, PartialEq, Eq)]
pub struct Step {
    pub delay_ms: Option<u64>,
    pub repeats: u32,
    pub action: Action,
}

/// The kind that the name `name` selects, by exact match.
pub open spec fn kind_spec(name: Seq<char>) -> ActionKind {
    if name == "move"@ {
        ActionKind::Move
    } else if name == "move_relative"@ {
        ActionKind::MoveRelative
    } else if name == "click"@ {
        ActionKind::Click
    } else if name == "double_click"@ {
        ActionKind::DoubleClick
    } else if name == "right_click"@ {
        ActionKind::RightClick
    } else if name == "drag"@ {
        ActionKind::Drag
    } else if name == "release"@ {
        ActionKind::Release
    } else if name == "scroll"@ {
        ActionKind::Scroll
    } else if name == "wait"@ {
        ActionKind::Wait
    } else {
        ActionKind::Unrecognized
    }
}

/// The point that two optional coordinates give: one only where both are
/// present.
pub open spec fn point_spec(x: Option<i32>, y: Option<i32>) -> Option<Point> {
    if x is Some && y is Some {
        Some(Point { x: x->0, y: y->0 })
    } else {
        None
    }
}

/// The button that a button column selects: the left one unless it names
/// the right or the middle one.
pub open spec fn button_spec(name: Option<Seq<char>>) -> Button {
    if name == Some("right"@) {
        Button::Right
    } else if name == Some("middle"@) {
        Button::Middle
    } else {
        Button::Left
    }
}

/// The repeat count of a record: 1 where the column is absent.
pub open spec fn count_spec(repeat_count: Option<u32>) -> u32 {
    match repeat_count {
        Some(n) => n,
        None => 1,
    }
}

/// The units by which a scroll record scrolls: the repeat count, downwards
/// (negative) where the modifier is `down` and upwards else.
pub open spec fn scroll_units_spec(modifiers: Option<Seq<char>>, repeat_count: Option<u32>) -> i64 {
    if modifiers == Some("down"@) {
        (-(count_spec(repeat_count) as int)) as i64
    } else {
        count_spec(repeat_count) as i64
    }
}

/// The action that a record stands for.
pub open spec fn action_spec(a: MouseActionView) -> Action {
    let at = point_spec(a.x_position, a.y_position);
    match kind_spec(a.action) {
        ActionKind::Move => Action::Move { target: at },
        ActionKind::MoveRelative => Action::MoveRelative { offset: at },
        ActionKind::Click => Action::Click { at, button: button_spec(a.button) },
        ActionKind::DoubleClick => Action::DoubleClick { at, button: button_spec(a.button) },
        ActionKind::RightClick => Action::RightClick { at },
        ActionKind::Drag => Action::Drag { at },
        ActionKind::Release => Action::Release { at },
        ActionKind::Scroll => Action::Scroll {
            units: scroll_units_spec(a.modifiers, a.repeat_count),
        },
        ActionKind::Wait => Action::Wait,
        ActionKind::Unrecognized => Action::Unrecognized,
    }
}

/// The step that a record stands for. A scroll is carried out once, its
/// repeat count being the distance; every other action is carried out as
/// often as the repeat count says.
pub open spec fn step_spec(a: MouseActionView) -> Step {
    Step {
        delay_ms: a.delay_ms,
        repeats: if kind_spec(a.action) == ActionKind::Scroll {
            1
        } else {
            count_spec(a.repeat_count)
        },
        action: action_spec(a),
    }
}

/// The move that comes before an action at a point, if a point was given.
pub open spec fn approach_spec(at: Option<Point>) -> Seq<PointerOp> {
    match at {
        Some(p) => seq![PointerOp::MoveTo { x: p.x, y: p.y }],
        None => Seq::empty(),
    }
}

/// The operations that carry out an action once, in order.
pub open spec fn body_spec(action: Action) -> Seq<PointerOp> {
    match action {
        Action::Move { target } => approach_spec(target),
        Action::MoveRelative { offset } => match offset {
            Some(p) => seq![PointerOp::MoveBy { dx: p.x, dy: p.y }],
            None => Seq::empty(),
        },
        Action::Click { at, button } => approach_spec(at) + seq![PointerOp::Click(button)],
        Action::DoubleClick { at, button } => approach_spec(at) + seq![
            PointerOp::Click(button),
            PointerOp::Pause(DOUBLE_CLICK_PAUSE_MS),
            PointerOp::Click(button),
        ],
        Action::RightClick { at } => approach_spec(at) + seq![PointerOp::Click(Button::Right)],
        Action::Drag { at } => approach_spec(at) + seq![PointerOp::Press(Button::Left)],
        Action::Release { at } => approach_spec(at) + seq![PointerOp::Release(Button::Left)],
        Action::Scroll { units } => seq![PointerOp::Scroll(units)],
        Action::Wait => Seq::empty(),
        Action::Unrecognized => Seq::empty(),
    }
}

/// `body` carried out `n` times.
pub open spec fn repeat_spec(body: Seq<PointerOp>, n: nat) -> Seq<PointerOp>
    decreases n,
{
    if n == 0 {
        Seq::empty()
    } else {
        body + repeat_spec(body, (n - 1) as nat)
    }
}

/// The pause with which a step begins, if it has a delay.
pub open spec fn prelude_spec(delay_ms: Option<u64>) -> Seq<PointerOp> {
    match delay_ms {
        Some(ms) => seq![PointerOp::Pause(ms)],
        None => Seq::empty(),
    }
}

/// Everything that a step does, in order: the pause, then the action's
/// operations as often as the step repeats them.
pub open spec fn step_ops(step: Step) -> Seq<PointerOp> {
    prelude_spec(step.delay_ms) + repeat_spec(body_spec(step.action), step.repeats as nat)
}

/// The kind that `name` selects.
pub fn kind_of(name: &str) -> (kind: ActionKind)
    ensures
        kind == kind_spec(name@),
{
    if same_text(name, "move") {
        ActionKind::Move
    } else if same_text(name, "move_relative") {
        ActionKind::MoveRelative
    } else if same_text(name, "click") {
        ActionKind::Click
    } else if same_text(name, "double_click") {
        ActionKind::DoubleClick
    } else if same_text(name, "right_click") {
        ActionKind::RightClick
    } else if same_text(name, "drag") {
        ActionKind::Drag
    } else if same_text(name, "release") {
        ActionKind::Release
    } else if same_text(name, "scroll") {
        ActionKind::Scroll
    } else if same_text(name, "wait") {
        ActionKind::Wait
    } else {
        ActionKind::Unrecognized
    }
}

/// The button that a button column selects.
pub fn button_of(name: &Option<String>) -> (button: Button)
    ensures
        button == button_spec(crate::record::text_view(*name)),
{
    match name {
        Some(s) => {
            if same_text(s.as_str(), "right") {
                Button::Right
            } else if same_text(s.as_str(), "middle") {
                Button::Middle
            } else {
                Button::Left
            }
        },
        None => Button::Left,
    }
}

/// The point that two optional coordinates give.
pub fn point_of(x: Option<i32>, y: Option<i32>) -> (p: Option<Point>)
    ensures
        p == point_spec(x, y),
{
    match (x, y) {
        (Some(x), Some(y)) => Some(Point { x, y }),
        _ => None,
    }
}

/// The units by which a scroll record scrolls.
pub fn scroll_units(modifiers: &Option<String>, repeat_count: Option<u32>) -> (units: i64)
    ensures
        units == scroll_units_spec(crate::record::text_view(*modifiers), repeat_count),
{
    let count: i64 = match repeat_count {
        Some(n) => n as i64,
        None => 1,
    };
    let down = match modifiers {
        Some(s) => same_text(s.as_str(), "down"),
        None => false,
    };
    if down {
        0 - count
    } else {
        count
    }
}

/// Makes a record ready to run.
pub fn resolve(record: &MouseAction) -> (step: Step)
    ensures
        step == step_spec(record@),
{
    let kind = kind_of(record.action.as_str());
    let at = point_of(record.x_position, record.y_position);
    let count: u32 = match record.repeat_count {
        Some(n) => n,
        None => 1,
    };
    let mut repeats: u32 = count;
    let action = match kind {
        ActionKind::Move => Action::Move { target: at },
        ActionKind::MoveRelative => Action::MoveRelative { offset: at },
        ActionKind::Click => Action::Click { at, button: button_of(&record.button) },
        ActionKind::DoubleClick => Action::DoubleClick { at, button: button_of(&record.button) },
        ActionKind::RightClick => Action::RightClick { at },
        ActionKind::Drag => Action::Drag { at },
        ActionKind::Release => Action::Release { at },
        ActionKind::Scroll => {
            repeats = 1;
            Action::Scroll { units: scroll_units(&record.modifiers, record.repeat_count) }
        },
        ActionKind::Wait => Action::Wait,
        ActionKind::Unrecognized => Action::Unrecognized,
    };
    Step { delay_ms: record.delay_ms, repeats, action }
}

/// The operations that carry out `action` once, in order.
pub fn operations(action: &Action) -> (ops: Vec<PointerOp>)
    ensures
        ops@ == body_spec(*action),
{
    let mut ops: Vec<PointerOp> = Vec::new();
    match *action {
        Action::Move { target } => {
            push_approach(&mut ops, target);
        },
        Action::MoveRelative { offset } => {
            match offset {
                Some(p) => {
                    ops.push(PointerOp::MoveBy { dx: p.x, dy: p.y });
                },
                None => {},
            }
        },
        Action::Click { at, button } => {
            push_approach(&mut ops, at);
            ops.push(PointerOp::Click(button));
        },
        Action::DoubleClick { at, button } => {
            push_approach(&mut ops, at);
            ops.push(PointerOp::Click(button));
            ops.push(PointerOp::Pause(DOUBLE_CLICK_PAUSE_MS));
            ops.push(PointerOp::Click(button));
        },
        Action::RightClick { at } => {
            push_approach(&mut ops, at);
            ops.push(PointerOp::Click(Button::Right));
        },
        Action::Drag { at } => {
            push_approach(&mut ops, at);
            ops.push(PointerOp::Press(Button::Left));
        },
        Action::Release { at } => {
            push_approach(&mut ops, at);
            ops.push(PointerOp::Release(Button::Left));
        },
        Action::Scroll { units } => {
            ops.push(PointerOp::Scroll(units));
        },
        Action::Wait => {},
        Action::Unrecognized => {},
    }
    assert(ops@ =~= body_spec(*action));
    ops
}

/// Appends the move to `at`, if a point was given.
fn push_approach(ops: &mut Vec<PointerOp>, at: Option<Point>)
    ensures
        final(ops)@ == old(ops)@ + approach_spec(at),
{
    match at {
        Some(p) => {
            ops.push(PointerOp::MoveTo { x: p.x, y: p.y });
            assert(final(ops)@ =~= old(ops)@ + approach_spec(at));
        },
        None => {
            assert(ops@ =~= old(ops)@ + approach_spec(at));
        },
    }
}

/// Nothing, however often, is nothing.
pub proof fn lemma_repeat_nothing(n: nat)
    ensures
        repeat_spec(Seq::empty(), n) == Seq::<PointerOp>::empty(),
    decreases n,
{
    if n > 0 {
        lemma_repeat_nothing((n - 1) as nat);
        assert(Seq::<PointerOp>::empty() + Seq::<PointerOp>::empty() =~= Seq::<PointerOp>::empty());
    }
}

/// Once is once.
pub proof fn lemma_repeat_once(body: Seq<PointerOp>)
    ensures
        repeat_spec(body, 1) == body,
{
    assert(repeat_spec(body, 0) =~= Seq::<PointerOp>::empty());
    assert(body + Seq::<PointerOp>::empty() =~= body);
}

/// A record without a repeat count does what the same record with a repeat
/// count of 1 does, whatever its action.
pub proof fn lemma_absent_repeat_is_one(a: MouseActionView)
    ensures
        step_spec(MouseActionView { repeat_count: None, ..a }) == step_spec(
            MouseActionView { repeat_count: Some(1), ..a },
        ),
        step_ops(step_spec(MouseActionView { repeat_count: None, ..a })) == step_ops(
            step_spec(MouseActionView { repeat_count: Some(1), ..a }),
        ),
        kind_spec(a.action) != ActionKind::Scroll ==> step_ops(
            step_spec(MouseActionView { repeat_count: None, ..a }),
        ) == prelude_spec(a.delay_ms) + body_spec(action_spec(a)),
{
    let absent = MouseActionView { repeat_count: None, ..a };
    lemma_repeat_once(body_spec(action_spec(absent)));
    if kind_spec(a.action) != ActionKind::Scroll {
        assert(action_spec(absent) == action_spec(a));
    }
}

/// A scroll record scrolls once, by its repeat count: downwards where the
/// modifier is `down`, upwards with any other modifier or none.
pub proof fn lemma_scroll_distance(a: MouseActionView)
    requires
        kind_spec(a.action) == ActionKind::Scroll,
    ensures
        step_ops(step_spec(a)) == prelude_spec(a.delay_ms) + seq![
            PointerOp::Scroll(scroll_units_spec(a.modifiers, a.repeat_count)),
        ],
        a.modifiers == Some("down"@) ==> scroll_units_spec(a.modifiers, a.repeat_count)
            == -(count_spec(a.repeat_count) as int),
        a.modifiers != Some("down"@) ==> scroll_units_spec(a.modifiers, a.repeat_count)
            == count_spec(a.repeat_count) as int,
{
    lemma_repeat_once(body_spec(action_spec(a)));
}

/// A record whose action is none of the vocabulary moves nothing: all that
/// it does is its pause.
pub proof fn lemma_unrecognized_does_nothing(a: MouseActionView)
    requires
        kind_spec(a.action) == ActionKind::Unrecognized,
    ensures
        action_spec(a) == Action::Unrecognized,
        body_spec(action_spec(a)) == Seq::<PointerOp>::empty(),
        step_ops(step_spec(a)) == prelude_spec(a.delay_ms),
{
    lemma_repeat_nothing(step_spec(a).repeats as nat);
    assert(prelude_spec(a.delay_ms) + Seq::<PointerOp>::empty() =~= prelude_spec(a.delay_ms));
}

} // verus!
