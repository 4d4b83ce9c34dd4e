use hhe_core::environment::Content;
use hhe_core::environment::ContentChar;
use hhe_core::environment::EnvData;
use hhe_core::errors::HHEError;
use hhe_core::errors::ScriptError;
use hhe_core::lisp::color::Color;
use hhe_core::text;

fn glyph(c: char) -> ContentChar {
    ContentChar { ch: c, ..ContentChar::default() }
}

#[test]
fn decimal_rendering_is_exact() {
    assert_eq!(text::u64_to_string(0), "0");
    assert_eq!(text::u64_to_string(90071), "90071");
    assert_eq!(text::i64_to_string(-42), "-42");
    assert_eq!(text::i64_to_string(i64::MIN), "-9223372036854775808");
    assert_eq!(text::i64_to_string(i64::MAX), "9223372036854775807");
}

#[test]
fn string_character_round_trip() {
    let v = text::str_chars("héllo\n");
    assert_eq!(v.len(), 6);
    assert_eq!(v[1], 'é');
    assert_eq!(text::chars_to_string(&v), "héllo\n");
}

#[test]
fn string_equality_compares_characters() {
    assert!(text::str_eq("abc", "abc"));
    assert!(!text::str_eq("abc", "abd"));
    assert!(!text::str_eq("abc", "ab"));
    assert!(text::str_eq("", ""));
}

#[test]
fn trimming_strips_surrounding_whitespace() {
    let v = text::str_chars(" \t a b \r\n");
    let t = text::trim_chars(&v);
    assert_eq!(text::chars_to_string(&t), "a b");
    let all_space = text::str_chars("  \n ");
    assert!(text::trim_chars(&all_space).is_empty());
}

#[test]
fn buffer_groups_into_lines_on_line_feeds() {
    let buf = Content(vec![glyph('a'), glyph('\n'), glyph('b'), glyph('c')]);
    let lines = buf.to_lines();
    assert_eq!(lines.len(), 2);
    assert_eq!(lines[0], vec![glyph('a')]);
    assert_eq!(lines[1], vec![glyph('b'), glyph('c')]);
}

#[test]
fn buffer_keeps_interior_empty_lines_only() {
    let buf = Content(vec![glyph('a'), glyph('\n'), glyph('\n'), glyph('b'), glyph('\n')]);
    let lines = buf.to_lines();
    assert_eq!(lines.len(), 3);
    assert!(lines[1].is_empty());
    let trailing = Content(vec![glyph('x'), glyph('\n')]);
    assert_eq!(trailing.to_lines().len(), 1);
}

#[test]
fn default_glyph_is_a_plain_space() {
    let g = ContentChar::default();
    assert_eq!(g.ch, ' ');
    assert_eq!(g.fg, Color(0, 0, 0));
    assert!(!g.bold && !g.italic && !g.underline && !g.crossed);
}

#[test]
fn style_snapshot_copies_the_display_style() {
    let mut data = EnvData::new();
    data.display.italic = true;
    data.display.current_bg = Color(4, 5, 6);
    let g = data.display.to_content_char('z');
    assert_eq!(g.ch, 'z');
    assert!(g.italic);
    assert_eq!(g.bg, Color(4, 5, 6));
}

#[test]
fn fresh_state_is_empty_and_running() {
    let data = EnvData::new();
    assert!(data.display.content.0.is_empty());
    assert_eq!(data.display.delay, 0);
    assert!(!data.quit);
    assert!(data.project.rooms.is_empty());
    assert!(data.debug.is_empty());
    assert_eq!(data.current_room, "");
}

#[test]
fn error_messages_name_function_and_position() {
    let e = ScriptError::MissingArgument { func: "string/format".to_string(), index: 1 };
    assert_eq!(e.message(), "\"string/format\" requires an argument 2");
    let w = ScriptError::WrongType {
        func: "fg/set".to_string(),
        index: 0,
        expected: "Color".to_string(),
    };
    assert_eq!(w.message(), "\"fg/set\" requires argument 1 to be a Color");
    let n = ScriptError::NamedLookup { func: "color".to_string(), name: "mauve".to_string() };
    assert_eq!(n.message(), "\"color\" found nothing called: mauve");
    let o = ScriptError::OutOfRange { func: "color-new".to_string(), index: 2 };
    assert_eq!(o.message(), "\"color-new\" argument 3 is out of range");
}

#[test]
fn load_error_message_names_the_path() {
    let e = HHEError::ProjectFolderDoesntExist("stories/a".to_string(), "gone".to_string());
    assert_eq!(e.message(), "Couldn't find folder with path `stories/a`");
}

#[test]
fn default_color_is_black() {
    assert_eq!(Color::default(), Color(0, 0, 0));
}
