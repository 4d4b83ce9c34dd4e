use hhe_core::environment::EnvData;
use hhe_core::errors::ScriptError;
use hhe_core::lisp::basic;
use hhe_core::lisp::color;
use hhe_core::lisp::color::Color;
use hhe_core::lisp::content;
use hhe_core::lisp::listener;
use hhe_core::lisp::random;
use hhe_core::lisp::title;
use hhe_core::parser::ProjectParser;
use hhe_core::script::ScriptArg;
use rust_lisp::model::Value;

fn s(t: &str) -> ScriptArg {
    ScriptArg::Str(t.to_string())
}

fn sym(t: &str) -> ScriptArg {
    ScriptArg::Sym(t.to_string())
}

#[test]
fn color_new_builds_colors_in_range() {
    let r = color::color_new(&vec![ScriptArg::Int(1), ScriptArg::Int(2), ScriptArg::Int(3)]);
    match r.unwrap() {
        ScriptArg::Color(c) => assert_eq!(c, Color(1, 2, 3)),
        _ => panic!("expected a color"),
    }
}

#[test]
fn color_new_rejects_out_of_range_components() {
    let r = color::color_new(&vec![ScriptArg::Int(0), ScriptArg::Int(256), ScriptArg::Int(0)]);
    match r.unwrap_err() {
        ScriptError::OutOfRange { func, index } => {
            assert_eq!(func, "color-new");
            assert_eq!(index, 1);
        },
        _ => panic!("expected an out-of-range failure"),
    }
    let r2 = color::color_new(&vec![ScriptArg::Int(-1), ScriptArg::Int(0), ScriptArg::Int(0)]);
    assert!(matches!(r2, Err(ScriptError::OutOfRange { .. })));
}

#[test]
fn color_new_reports_missing_and_mistyped_arguments() {
    match color::color_new(&vec![ScriptArg::Int(0)]).unwrap_err() {
        ScriptError::MissingArgument { func, index } => {
            assert_eq!(func, "color-new");
            assert_eq!(index, 1);
        },
        _ => panic!("expected a missing-argument failure"),
    }
    match color::color_new(&vec![s("red"), ScriptArg::Int(0), ScriptArg::Int(0)]).unwrap_err() {
        ScriptError::WrongType { func, index, expected } => {
            assert_eq!(func, "color-new");
            assert_eq!(index, 0);
            assert_eq!(expected, "int");
        },
        _ => panic!("expected a wrong-type failure"),
    }
}

#[test]
fn palette_lookup_follows_the_fixed_table() {
    match color::color(&vec![sym("red")]).unwrap() {
        ScriptArg::Color(c) => assert_eq!(c, Color(255, 0, 0)),
        _ => panic!("expected a color"),
    }
    match color::color(&vec![sym("green")]).unwrap() {
        ScriptArg::Color(c) => assert_eq!(c, Color(0, 255, 0)),
        _ => panic!("expected a color"),
    }
    match color::color(&vec![sym("blue")]).unwrap() {
        ScriptArg::Color(c) => assert_eq!(c, Color(0, 0, 255)),
        _ => panic!("expected a color"),
    }
    match color::color(&vec![sym("white")]).unwrap() {
        ScriptArg::Color(c) => assert_eq!(c, Color(255, 255, 255)),
        _ => panic!("expected a color"),
    }
}

#[test]
fn unknown_color_name_is_a_lookup_failure() {
    match color::color(&vec![sym("mauve")]).unwrap_err() {
        ScriptError::NamedLookup { func, name } => {
            assert_eq!(func, "color");
            assert_eq!(name, "mauve");
        },
        _ => panic!("expected a lookup failure"),
    }
}

#[test]
fn title_commands_set_the_title() {
    let mut data = EnvData::new();
    title::set_name(&mut data, &vec![s("The House")]).unwrap();
    assert_eq!(data.title.content, "The House");
    title::bold(&mut data, &vec![]).unwrap();
    title::italic(&mut data, &vec![]).unwrap();
    assert!(data.title.bold && data.title.italic);
    title::reset(&mut data, &vec![]).unwrap();
    assert!(!data.title.bold && !data.title.italic);
    title::set_fg(&mut data, &vec![ScriptArg::Color(Color(9, 8, 7))]).unwrap();
    assert_eq!(data.title.fg, Color(9, 8, 7));
}

#[test]
fn title_show_accepts_boolean_like_values() {
    let mut data = EnvData::new();
    title::show(&mut data, &vec![ScriptArg::Bool(true)]).unwrap();
    assert!(data.title.show);
    title::show(&mut data, &vec![ScriptArg::Int(0)]).unwrap();
    assert!(!data.title.show);
    title::show(&mut data, &vec![ScriptArg::Int(2)]).unwrap();
    assert!(data.title.show);
    title::show(&mut data, &vec![s("yes")]).unwrap();
    assert!(!data.title.show);
}

#[test]
fn delay_set_changes_the_pace() {
    let mut data = EnvData::new();
    content::set_delay(&mut data, &vec![ScriptArg::Int(40)]).unwrap();
    assert_eq!(data.display.delay, 40);
    assert!(matches!(
        content::set_delay(&mut data, &vec![s("fast")]),
        Err(ScriptError::WrongType { .. })
    ));
}

#[test]
fn appended_text_snapshots_the_current_style() {
    let mut data = EnvData::new();
    content::bold(&mut data, &vec![]).unwrap();
    content::set_content_fg(&mut data, &vec![ScriptArg::Color(Color(1, 2, 3))]).unwrap();
    content::content_append(&mut data, &vec![s("hi")]).unwrap();
    assert_eq!(data.display.content.0.len(), 2);
    assert!(data.display.content.0[0].bold);
    assert_eq!(data.display.content.0[0].fg, Color(1, 2, 3));
    assert_eq!(data.display.content.to_raw(), "hi");
    // the reveal cursor did not move
    assert_eq!(data.display.displayed_index, 0);
}

#[test]
fn emitted_glyphs_keep_their_style() {
    let mut data = EnvData::new();
    content::content_append(&mut data, &vec![s("a")]).unwrap();
    let before = data.display.content.0[0];
    content::bold(&mut data, &vec![]).unwrap();
    content::set_content_fg(&mut data, &vec![ScriptArg::Color(Color(200, 0, 0))]).unwrap();
    content::reset(&mut data, &vec![]).unwrap();
    title::bold(&mut data, &vec![]).unwrap();
    assert_eq!(data.display.content.0[0], before);
}

#[test]
fn clear_empties_the_buffer_and_cursor() {
    let mut data = EnvData::new();
    content::content_append(&mut data, &vec![s("abc")]).unwrap();
    content::content_clear(&mut data, &vec![]).unwrap();
    assert!(data.display.content.0.is_empty());
    assert_eq!(data.display.displayed_index, 0);
}

#[test]
fn raw_readback_returns_the_characters() {
    let mut data = EnvData::new();
    content::content_append(&mut data, &vec![s("ab")]).unwrap();
    match content::content_get_raw(&data, &vec![]).unwrap() {
        ScriptArg::Str(t) => assert_eq!(t, "ab"),
        _ => panic!("expected a string"),
    }
}

#[test]
fn scrolling_never_goes_negative() {
    let mut data = EnvData::new();
    content::content_scroll_up(&mut data, &vec![]).unwrap();
    assert_eq!(data.display.scroll, 0);
    content::content_scroll_down(&mut data, &vec![]).unwrap();
    content::content_scroll_down(&mut data, &vec![]).unwrap();
    content::content_scroll_up(&mut data, &vec![]).unwrap();
    assert_eq!(data.display.scroll, 1);
}

#[test]
fn scroll_set_clamps_its_argument() {
    let mut data = EnvData::new();
    content::content_scroll_set(&mut data, &vec![ScriptArg::Int(-7)]).unwrap();
    assert_eq!(data.display.scroll, 0);
    content::content_scroll_set(&mut data, &vec![ScriptArg::Int(12)]).unwrap();
    assert_eq!(data.display.scroll, 12);
    content::content_scroll_set(&mut data, &vec![ScriptArg::Int(i32::MAX as i64 + 5)]).unwrap();
    assert_eq!(data.display.scroll, i32::MAX);
    match content::content_scroll_get(&data, &vec![]).unwrap() {
        ScriptArg::Int(v) => assert_eq!(v, i32::MAX as i64),
        _ => panic!("expected an integer"),
    }
}

#[test]
fn display_colors_read_back() {
    let mut data = EnvData::new();
    content::set_fg(&mut data, &vec![ScriptArg::Color(Color(1, 1, 1))]).unwrap();
    content::set_bg(&mut data, &vec![ScriptArg::Color(Color(2, 2, 2))]).unwrap();
    content::set_ac(&mut data, &vec![ScriptArg::Color(Color(3, 3, 3))]).unwrap();
    assert!(matches!(content::get_fg(&data, &vec![]).unwrap(), ScriptArg::Color(Color(1, 1, 1))));
    assert!(matches!(content::get_bg(&data, &vec![]).unwrap(), ScriptArg::Color(Color(2, 2, 2))));
    assert!(matches!(content::get_ac(&data, &vec![]).unwrap(), ScriptArg::Color(Color(3, 3, 3))));
}

#[test]
fn color_arguments_fail_loudly_when_not_colors() {
    let mut data = EnvData::new();
    match content::set_content_fg(&mut data, &vec![ScriptArg::Int(3)]).unwrap_err() {
        ScriptError::WrongType { func, index, expected } => {
            assert_eq!(func, "fg/set");
            assert_eq!(index, 0);
            assert_eq!(expected, "Color");
        },
        _ => panic!("expected a wrong-type failure"),
    }
}

#[test]
fn listeners_get_growing_ids() {
    let mut data = EnvData::new();
    let cb = ScriptArg::Other(Value::String("f".to_string()), "string".to_string());
    let r0 = listener::keyboard_char_listener(&mut data, &vec![cb.clone()]).unwrap();
    let r1 = listener::keyboard_char_listener(&mut data, &vec![cb.clone()]).unwrap();
    assert!(matches!(r0, ScriptArg::Int(0)));
    assert!(matches!(r1, ScriptArg::Int(1)));
    listener::listener_clear(&mut data, &vec![ScriptArg::Int(0)]).unwrap();
    assert_eq!(data.listeners.keyboard_char.len(), 1);
    assert_eq!(data.listeners.keyboard_char[0].0, 1);
    // ids keep growing after a clear
    let r2 = listener::keyboard_char_listener(&mut data, &vec![cb]).unwrap();
    assert!(matches!(r2, ScriptArg::Int(2)));
}

#[test]
fn clearing_an_unknown_listener_changes_nothing() {
    let mut data = EnvData::new();
    listener::listener_clear(&mut data, &vec![ScriptArg::Int(9)]).unwrap();
    assert!(data.listeners.keyboard_char.is_empty());
}

#[test]
fn option_reset_clears_options_and_selection() {
    let mut data = EnvData::new();
    let args = vec![s("label"), sym("r")];
    hhe_core::lisp::options::option_goto(&mut data, &args).unwrap();
    data.options.selected = Some(0);
    hhe_core::lisp::options::option_reset(&mut data, &vec![]).unwrap();
    assert!(data.options.options.is_empty());
    assert!(data.options.selected.is_none());
}

#[test]
fn option_labels_snapshot_the_style() {
    let mut data = EnvData::new();
    content::bold(&mut data, &vec![]).unwrap();
    hhe_core::lisp::options::option_goto(&mut data, &vec![s("go"), sym("r")]).unwrap();
    let label = &data.options.options[0].name;
    assert_eq!(label.0.len(), 2);
    assert!(label.0[0].bold);
    assert_eq!(label.0[0].ch, 'g');
}

#[test]
fn random_draws_stay_in_range() {
    for _ in 0..20 {
        match random::random_int(&vec![ScriptArg::Int(3), ScriptArg::Int(6)]).unwrap() {
            ScriptArg::Int(v) => assert!((3..6).contains(&v)),
            _ => panic!("expected an integer"),
        }
    }
    match random::random_int(&vec![ScriptArg::Int(5), ScriptArg::Int(6)]).unwrap() {
        ScriptArg::Int(v) => assert_eq!(v, 5),
        _ => panic!("expected an integer"),
    }
}

#[test]
fn empty_random_range_is_rejected() {
    assert!(matches!(
        random::random_int(&vec![ScriptArg::Int(6), ScriptArg::Int(6)]),
        Err(ScriptError::OutOfRange { .. })
    ));
}

#[test]
fn exit_raises_the_quit_flag() {
    let mut data = EnvData::new();
    assert!(!data.quit);
    basic::exit(&mut data, &vec![]).unwrap();
    assert!(data.quit);
}

#[test]
fn debug_appends_to_the_log() {
    let mut data = EnvData::new();
    basic::debug(&mut data, &vec![s("first")]).unwrap();
    basic::debug(&mut data, &vec![s("second")]).unwrap();
    assert_eq!(data.debug, vec!["first".to_string(), "second".to_string()]);
    assert!(matches!(
        basic::debug(&mut data, &vec![ScriptArg::Int(1)]),
        Err(ScriptError::WrongType { .. })
    ));
}

#[test]
fn room_pointer_is_settable_and_readable() {
    let mut data = EnvData::new();
    basic::room_set(&mut data, &vec![s("cellar")]).unwrap();
    assert_eq!(data.current_room, "cellar");
    match basic::room_get(&data, &vec![]).unwrap() {
        ScriptArg::Str(t) => assert_eq!(t, "cellar"),
        _ => panic!("expected a string"),
    }
}

#[test]
fn run_post_returns_the_post_script() {
    let mut data = EnvData::new();
    let p = ProjectParser::new("root");
    let room = p.parse_room("a\n---\nb\n---\n(do-things)");
    data.project.insert_room("r".to_string(), room);
    data.current_room = "r".to_string();
    assert_eq!(basic::run_post(&data).unwrap(), "(do-things)");
    data.current_room = "missing".to_string();
    match basic::run_post(&data).unwrap_err() {
        ScriptError::NamedLookup { func, name } => {
            assert_eq!(func, "post");
            assert_eq!(name, "missing");
        },
        _ => panic!("expected a lookup failure"),
    }
}

#[test]
fn intrinsic_time_is_an_integer() {
    assert!(matches!(basic::intrinsic(&vec![sym("time")]).unwrap(), ScriptArg::Int(_)));
    assert!(matches!(basic::intrinsic(&vec![sym("mystery")]).unwrap(), ScriptArg::Nil));
    assert!(matches!(
        basic::intrinsic(&vec![s("time")]),
        Err(ScriptError::WrongType { .. })
    ));
}
