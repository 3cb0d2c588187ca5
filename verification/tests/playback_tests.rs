use mouse_script::action::{Action, Button, Point, PointerOp, Step};
use mouse_script::playback::{plan, Playback};
use mouse_script::resolver::SAMPLE_TABLE;
use mouse_script::table::parse_script;

fn drain(playback: &mut Playback) -> Vec<PointerOp> {
    let mut ops = Vec::new();
    while let Some(op) = playback.next_op() {
        ops.push(op);
        assert!(ops.len() < 10_000);
    }
    ops
}

#[test]
fn sample_table_plays_in_order() {
    let script = parse_script(SAMPLE_TABLE.as_bytes());
    let mut playback = Playback::new(plan(&script.actions));
    let left = Button::Left;
    assert_eq!(
        drain(&mut playback),
        vec![
            PointerOp::Pause(500),
            PointerOp::MoveTo { x: 100, y: 200 },
            PointerOp::Pause(200),
            PointerOp::MoveTo { x: 150, y: 300 },
            PointerOp::Click(left),
            PointerOp::Pause(150),
            PointerOp::MoveTo { x: 150, y: 300 },
            PointerOp::Click(left),
            PointerOp::Pause(10),
            PointerOp::Click(left),
            PointerOp::MoveTo { x: 150, y: 300 },
            PointerOp::Click(left),
            PointerOp::Pause(10),
            PointerOp::Click(left),
            PointerOp::Pause(300),
            PointerOp::MoveTo { x: 400, y: 500 },
            PointerOp::Click(Button::Right),
            PointerOp::Pause(100),
            PointerOp::MoveTo { x: 200, y: 300 },
            PointerOp::Press(left),
            PointerOp::Pause(50),
            PointerOp::MoveTo { x: 400, y: 500 },
            PointerOp::Release(left),
            PointerOp::Pause(300),
            PointerOp::MoveTo { x: 500, y: 600 },
            PointerOp::Pause(200),
            PointerOp::Scroll(-5),
            PointerOp::Pause(2000),
            PointerOp::Pause(300),
            PointerOp::MoveBy { dx: 50, dy: -30 },
        ]
    );
    assert_eq!(playback.next_op(), None);
}

#[test]
fn empty_script_plays_nothing() {
    let mut playback = Playback::new(Vec::new());
    assert_eq!(playback.next_op(), None);
    assert_eq!(playback.next_op(), None);
}

#[test]
fn pause_comes_once_and_first() {
    let step = Step {
        delay_ms: Some(40),
        repeats: 3,
        action: Action::Click { at: None, button: Button::Middle },
    };
    let mut playback = Playback::new(vec![step]);
    assert_eq!(
        drain(&mut playback),
        vec![
            PointerOp::Pause(40),
            PointerOp::Click(Button::Middle),
            PointerOp::Click(Button::Middle),
            PointerOp::Click(Button::Middle),
        ]
    );
}

#[test]
fn zero_repeats_leaves_only_the_pause() {
    let step = Step {
        delay_ms: Some(5),
        repeats: 0,
        action: Action::Click { at: Some(Point { x: 1, y: 2 }), button: Button::Left },
    };
    let after = Step { delay_ms: None, repeats: 1, action: Action::Scroll { units: 3 } };
    let mut playback = Playback::new(vec![step, after]);
    assert_eq!(drain(&mut playback), vec![PointerOp::Pause(5), PointerOp::Scroll(3)]);
}

#[test]
fn steps_without_operations_are_passed_at_once() {
    let idle = Step { delay_ms: None, repeats: u32::MAX, action: Action::Unrecognized };
    let wait = Step { delay_ms: Some(1), repeats: u32::MAX, action: Action::Wait };
    let stay = Step { delay_ms: None, repeats: u32::MAX, action: Action::Move { target: None } };
    let last = Step { delay_ms: None, repeats: 2, action: Action::Drag { at: None } };
    let mut playback = Playback::new(vec![idle, wait, stay, last]);
    assert_eq!(
        drain(&mut playback),
        vec![PointerOp::Pause(1), PointerOp::Press(Button::Left), PointerOp::Press(Button::Left)]
    );
}

#[test]
fn rounds_repeat_the_whole_body() {
    let step = Step {
        delay_ms: None,
        repeats: 2,
        action: Action::Release { at: Some(Point { x: 9, y: 8 }) },
    };
    let mut playback = Playback::new(vec![step]);
    assert_eq!(
        drain(&mut playback),
        vec![
            PointerOp::MoveTo { x: 9, y: 8 },
            PointerOp::Release(Button::Left),
            PointerOp::MoveTo { x: 9, y: 8 },
            PointerOp::Release(Button::Left),
        ]
    );
}

#[test]
fn plan_resolves_every_record() {
    let script = parse_script(SAMPLE_TABLE.as_bytes());
    let steps = plan(&script.actions);
    assert_eq!(steps.len(), 10);
    assert_eq!(steps[2].repeats, 2);
    assert_eq!(steps[7], Step {
        delay_ms: Some(200),
        repeats: 1,
        action: Action::Scroll { units: -5 },
    });
    assert_eq!(steps[8], Step { delay_ms: Some(2000), repeats: 1, action: Action::Wait });
    assert!(plan(&Vec::new()).is_empty());
}
