use mouse_script::resolver::{
    candidate_path, Reply, Request, Resolver, Stage, CANDIDATES, DEFAULT_PATH, SAMPLE_TABLE,
};

fn asks_about(path: &str) -> Request {
    Request::Exists(path.to_string())
}

fn usable(path: &str) -> Request {
    Request::Use(path.to_string())
}

#[test]
fn existing_argument_is_used() {
    let mut resolver = Resolver::new(Some("my.csv".to_string()));
    assert_eq!(resolver.request(), asks_about("my.csv"));
    resolver.reply(Reply::Exists(true));
    assert_eq!(resolver.stage, Stage::UseArgument);
    assert_eq!(resolver.request(), usable("my.csv"));
}

#[test]
fn missing_argument_falls_back_to_the_default_table() {
    let mut resolver = Resolver::new(Some("nowhere.csv".to_string()));
    assert_eq!(resolver.request(), asks_about("nowhere.csv"));
    resolver.reply(Reply::Exists(false));
    assert_eq!(resolver.request(), asks_about("mouse_actions.csv"));
    resolver.reply(Reply::Exists(false));
    assert_eq!(
        resolver.request(),
        Request::Write {
            path: "mouse_actions.csv".to_string(),
            content: SAMPLE_TABLE.to_string(),
        }
    );
    resolver.reply(Reply::Written);
    assert_eq!(resolver.request(), asks_about("mouse_actions.csv"));
    resolver.reply(Reply::Exists(true));
    assert_eq!(resolver.request(), usable("mouse_actions.csv"));
}

#[test]
fn present_default_table_is_not_written_again() {
    let mut resolver = Resolver::new(None);
    assert_eq!(resolver.request(), asks_about("mouse_actions.csv"));
    resolver.reply(Reply::Exists(true));
    let mut asked = Vec::new();
    for _ in 0..8 {
        let request = resolver.request();
        assert!(!matches!(request, Request::Write { .. }));
        asked.push(request);
        resolver.reply(Reply::Exists(false));
    }
    assert_eq!(asked[0], asks_about("mouse_actions.csv"));
    assert_eq!(asked[4], usable("mouse_actions.csv"));
}

#[test]
fn candidates_are_tried_in_order() {
    let mut resolver = Resolver::new(None);
    resolver.reply(Reply::Exists(true));
    assert_eq!(resolver.request(), asks_about("mouse_actions.csv"));
    resolver.reply(Reply::Exists(false));
    assert_eq!(resolver.request(), asks_about("./mouse_actions.csv"));
    resolver.reply(Reply::Exists(false));
    assert_eq!(resolver.request(), asks_about("../mouse_actions.csv"));
    resolver.reply(Reply::Exists(false));
    assert_eq!(resolver.request(), asks_about("data/mouse_actions.csv"));
    resolver.reply(Reply::Exists(true));
    assert_eq!(resolver.stage, Stage::Found(3));
    assert_eq!(resolver.request(), usable("data/mouse_actions.csv"));
}

#[test]
fn first_candidate_that_exists_wins() {
    let mut resolver = Resolver::new(None);
    resolver.reply(Reply::Exists(true));
    resolver.reply(Reply::Exists(false));
    resolver.reply(Reply::Exists(false));
    resolver.reply(Reply::Exists(true));
    assert_eq!(resolver.request(), usable("../mouse_actions.csv"));
    resolver.reply(Reply::Exists(true));
    assert_eq!(resolver.request(), usable("../mouse_actions.csv"));
}

#[test]
fn default_name_is_the_last_resort() {
    let mut resolver = Resolver::new(None);
    resolver.reply(Reply::Exists(false));
    assert_eq!(resolver.stage, Stage::WriteDefault);
    resolver.reply(Reply::Written);
    for _ in 0..CANDIDATES {
        assert!(matches!(resolver.request(), Request::Exists(_)));
        resolver.reply(Reply::Exists(false));
    }
    assert_eq!(resolver.stage, Stage::Fallback);
    assert_eq!(resolver.request(), usable(DEFAULT_PATH));
}

#[test]
fn reply_that_does_not_fit_changes_nothing() {
    let mut resolver = Resolver::new(Some("a.csv".to_string()));
    resolver.reply(Reply::Written);
    assert_eq!(resolver.stage, Stage::CheckArgument);
    resolver.reply(Reply::Exists(false));
    resolver.reply(Reply::Written);
    assert_eq!(resolver.stage, Stage::CheckDefault);
    resolver.reply(Reply::Exists(false));
    resolver.reply(Reply::Exists(true));
    assert_eq!(resolver.stage, Stage::WriteDefault);
    resolver.reply(Reply::Written);
    resolver.reply(Reply::Written);
    assert_eq!(resolver.stage, Stage::Probe(0));
}

#[test]
fn candidate_places_are_fixed() {
    assert_eq!(CANDIDATES, 4);
    assert_eq!(DEFAULT_PATH, "mouse_actions.csv");
    assert_eq!(candidate_path(0), "mouse_actions.csv");
    assert_eq!(candidate_path(1), "./mouse_actions.csv");
    assert_eq!(candidate_path(2), "../mouse_actions.csv");
    assert_eq!(candidate_path(3), "data/mouse_actions.csv");
    assert_eq!(candidate_path(9), "data/mouse_actions.csv");
}

#[test]
fn sample_table_has_a_header_and_ten_rows() {
    let lines: Vec<&str> = SAMPLE_TABLE.split('\n').collect();
    assert_eq!(lines.len(), 11);
    assert_eq!(lines[0], "action,x_position,y_position,delay_ms,button,modifiers,repeat_count");
    assert_eq!(lines[1], "move,100,200,500,,,");
    assert_eq!(lines[8], "scroll,500,600,200,,down,5");
    assert_eq!(lines[10], "move_relative,50,-30,300,,,");
    let names: Vec<&str> = lines[1..].iter().map(|l| l.split(',').next().unwrap()).collect();
    assert_eq!(
        names,
        vec![
            "move", "click", "double_click", "right_click", "drag", "release", "move", "scroll",
            "wait", "move_relative",
        ]
    );
}

#[test]
fn failed_write_ends_the_resolution_without_a_path() {
    let mut resolver = Resolver::new(Some("gone.csv".to_string()));
    resolver.reply(Reply::Exists(false));
    resolver.reply(Reply::Exists(false));
    assert!(matches!(resolver.request(), Request::Write { .. }));
    resolver.reply(Reply::WriteFailed);
    assert_eq!(resolver.stage, Stage::Failed);
    assert_eq!(resolver.request(), Request::GiveUp);
    resolver.reply(Reply::Written);
    resolver.reply(Reply::Exists(true));
    assert_eq!(resolver.request(), Request::GiveUp);
}

#[test]
fn failed_write_is_heeded_only_after_a_write_was_asked_for() {
    let mut resolver = Resolver::new(None);
    resolver.reply(Reply::WriteFailed);
    assert_eq!(resolver.stage, Stage::CheckDefault);
    resolver.reply(Reply::Exists(true));
    resolver.reply(Reply::WriteFailed);
    assert_eq!(resolver.stage, Stage::Probe(0));
}

#[test]
fn every_resolution_is_over_within_seven_replies() {
    for with_argument in [false, true] {
        for answers in 0u32..(1 << 7) {
            let argument = if with_argument { Some("a.csv".to_string()) } else { None };
            let mut resolver = Resolver::new(argument);
            let mut replies = 0;
            loop {
                match resolver.request() {
                    Request::Exists(_) => {
                        resolver.reply(Reply::Exists(answers & (1 << replies) != 0));
                    }
                    Request::Write { .. } => {
                        if answers & (1 << replies) != 0 {
                            resolver.reply(Reply::Written);
                        } else {
                            resolver.reply(Reply::WriteFailed);
                        }
                    }
                    Request::Use(_) | Request::GiveUp => break,
                }
                replies += 1;
                assert!(replies <= 7);
            }
        }
    }
}
