use hhe_core::environment::advance_cursor;
use hhe_core::lisp::content;
use hhe_core::environment::compute_ticks;
use hhe_core::environment::option_activate;
use hhe_core::environment::tick_content;
use hhe_core::environment::EnvData;
use hhe_core::environment::Environment;
use hhe_core::environment::RoomEntry;
use hhe_core::environment::TickOutcome;
use hhe_core::lisp::options;
use hhe_core::parser::ProjectParser;
use hhe_core::script::ScriptArg;
use rust_lisp::model::Value;

fn load(data: &mut EnvData, name: &str, text: &str) {
    let p = ProjectParser::new("root");
    let room = p.parse_room(text);
    data.project.insert_room(name.to_string(), room);
}

#[test]
fn ticks_accumulate_without_drift() {
    // the same total elapsed time yields the same ticks and remainder,
    // however it is cut into frames
    let (t1, p1) = compute_ticks(0, 3, 10);
    assert_eq!((t1, p1), (0, 3));
    let (t2, p2) = compute_ticks(p1, 4, 10);
    assert_eq!((t2, p2), (0, 7));
    let (t3, p3) = compute_ticks(p2, 5, 10);
    assert_eq!((t3, p3), (1, 2));
    let (tt, pt) = compute_ticks(0, 12, 10);
    assert_eq!((t1 + t2 + t3, p3), (tt, pt));
}

#[test]
fn ticks_divide_by_the_delay() {
    assert_eq!(compute_ticks(7, 25, 8), (4, 0));
    assert_eq!(compute_ticks(0, 1, 1), (1, 0));
    assert_eq!(compute_ticks(0, 0, 5), (0, 0));
}

#[test]
fn zero_delay_produces_no_ticks() {
    assert_eq!(compute_ticks(5, 1000000, 0), (0, 5));
    assert_eq!(compute_ticks(0, i64::MAX, 0), (0, 0));
}

#[test]
fn negative_delay_produces_no_ticks_but_reduces() {
    assert_eq!(compute_ticks(3, 10, -5), (0, 3));
    assert_eq!(compute_ticks(3, 4, i64::MIN), (0, 7));
}

#[test]
fn accumulation_saturates_instead_of_overflowing() {
    let (t, p) = compute_ticks(i64::MAX - 1, 5, 10);
    assert_eq!(t, i64::MAX / 10);
    assert_eq!(p, i64::MAX % 10);
}

#[test]
fn empty_room_is_immediately_exhausted() {
    let mut data = EnvData::new();
    load(&mut data, "void", "---\n---\n");
    data.current_room = "void".to_string();
    let mut env = Environment::new();
    let entry = env.update_room(&mut data);
    match entry {
        RoomEntry::Entered(pre) => assert_eq!(pre, ""),
        _ => panic!("expected to enter the room"),
    }
    assert!(matches!(tick_content(&mut data), TickOutcome::Exhausted));
    assert!(data.display.content.0.is_empty());
    assert_eq!(data.display.displayed_index, 0);
}

#[test]
fn ticks_reveal_literals_one_by_one() {
    let mut data = EnvData::new();
    load(&mut data, "r", "---\nab\n---\n");
    data.current_room = "r".to_string();
    let mut env = Environment::new();
    env.update_room(&mut data);
    assert!(matches!(tick_content(&mut data), TickOutcome::Revealed));
    assert_eq!(data.display.content.to_raw(), "a");
    assert_eq!(data.display.displayed_index, 1);
    assert!(matches!(tick_content(&mut data), TickOutcome::Revealed));
    assert_eq!(data.display.content.to_raw(), "ab");
    assert_eq!(data.display.displayed_index, 2);
    assert!(matches!(tick_content(&mut data), TickOutcome::Exhausted));
    assert_eq!(data.display.displayed_index, 2);
}

#[test]
fn ticks_hand_script_blocks_back() {
    let mut data = EnvData::new();
    load(&mut data, "r", "---\na`(exit)`b\n---\n");
    data.current_room = "r".to_string();
    let mut env = Environment::new();
    env.update_room(&mut data);
    tick_content(&mut data);
    match tick_content(&mut data) {
        TickOutcome::Script(src) => assert_eq!(src, "(exit)"),
        _ => panic!("expected a script block"),
    }
    // the block itself put nothing in the buffer, and the cursor waits
    // for the evaluation before moving past the unit
    assert_eq!(data.display.content.to_raw(), "a");
    assert_eq!(data.display.displayed_index, 1);
    advance_cursor(&mut data);
    assert_eq!(data.display.displayed_index, 2);
    assert!(matches!(tick_content(&mut data), TickOutcome::Revealed));
    assert_eq!(data.display.content.to_raw(), "ab");
}

#[test]
fn block_side_effects_land_before_the_cursor_moves() {
    let mut data = EnvData::new();
    load(&mut data, "r", "---\n`(content/clear)`x\n---\n");
    data.current_room = "r".to_string();
    let mut env = Environment::new();
    env.update_room(&mut data);
    assert!(matches!(tick_content(&mut data), TickOutcome::Script(_)));
    // the block clears the buffer, which puts the cursor back to zero...
    content::content_clear(&mut data, &vec![]).unwrap();
    assert_eq!(data.display.displayed_index, 0);
    // ...and only then does the cursor move past the unit, so the block
    // is not run again
    advance_cursor(&mut data);
    assert_eq!(data.display.displayed_index, 1);
    assert!(matches!(tick_content(&mut data), TickOutcome::Revealed));
}

#[test]
fn advancing_at_the_end_stays_clamped() {
    let mut data = EnvData::new();
    load(&mut data, "r", "---\nz\n---\n");
    data.current_room = "r".to_string();
    let mut env = Environment::new();
    env.update_room(&mut data);
    tick_content(&mut data);
    assert_eq!(data.display.displayed_index, 1);
    advance_cursor(&mut data);
    assert_eq!(data.display.displayed_index, 1);
    // with no current room the cursor does not move at all
    data.current_room = "gone".to_string();
    advance_cursor(&mut data);
    assert_eq!(data.display.displayed_index, 1);
}

#[test]
fn unknown_room_changes_nothing() {
    let mut data = EnvData::new();
    data.current_room = "nowhere".to_string();
    assert!(matches!(tick_content(&mut data), TickOutcome::UnknownRoom));
    let mut env = Environment::new();
    let entry = env.update_room(&mut data);
    assert!(matches!(entry, RoomEntry::UnknownRoom));
}

#[test]
fn same_room_is_not_reentered() {
    let mut data = EnvData::new();
    load(&mut data, "r", "pre\n---\nx\n---\n");
    data.current_room = "r".to_string();
    let mut env = Environment::new();
    assert!(matches!(env.update_room(&mut data), RoomEntry::Entered(_)));
    assert!(matches!(env.update_room(&mut data), RoomEntry::Same));
}

#[test]
fn goto_option_navigates_and_reenters() {
    let mut data = EnvData::new();
    load(&mut data, "start", "---\nsss\n---\n");
    load(&mut data, "next", "hello\n---\nnnn\n---\n");
    data.current_room = "start".to_string();
    let mut env = Environment::new();
    env.update_room(&mut data);
    // reveal one glyph, then offer an option
    tick_content(&mut data);
    let args = vec![
        ScriptArg::Str("go on".to_string()),
        ScriptArg::Sym("next".to_string()),
    ];
    options::option_goto(&mut data, &args).unwrap();
    assert_eq!(data.options.options.len(), 1);

    let r = option_activate(&mut data, 0);
    assert!(r.is_none());
    assert_eq!(data.current_room, "next");

    // the next frame resets the display and runs the new pre-script
    match env.update_room(&mut data) {
        RoomEntry::Entered(pre) => assert_eq!(pre, "hello"),
        _ => panic!("expected to enter the new room"),
    }
    assert!(data.display.content.0.is_empty());
    assert_eq!(data.display.displayed_index, 0);
    assert!(data.options.options.is_empty());
    assert!(data.options.selected.is_none());
}

#[test]
fn activating_past_the_list_does_nothing() {
    let mut data = EnvData::new();
    assert!(option_activate(&mut data, 3).is_none());
}

#[test]
fn callback_option_hands_the_callback_back() {
    let mut data = EnvData::new();
    let cb = Value::String("callback".to_string());
    let args = vec![
        ScriptArg::Str("label".to_string()),
        ScriptArg::Other(cb.clone(), "string".to_string()),
    ];
    options::option_action(&mut data, &args).unwrap();
    let got = option_activate(&mut data, 0).expect("expected a callback");
    match got {
        ScriptArg::Other(v, _) => assert!(v == cb),
        _ => panic!("expected the opaque value back"),
    }
}

#[test]
fn paused_scheduler_never_ticks() {
    let mut data = EnvData::new();
    load(&mut data, "r", "---\nabc\n---\n");
    data.current_room = "r".to_string();
    let mut env = Environment::new();
    env.update_room(&mut data);
    // the delay is zero by default: no elapsed time yields any tick
    assert_eq!(data.display.delay, 0);
    let t = env.update_ticks(&data);
    assert_eq!(t, 0);
    assert!(data.display.content.0.is_empty());
}
