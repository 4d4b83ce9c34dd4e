use hhe_core::parser::ProjectParser;
use hhe_core::parser::parse_content;
use hhe_core::project::Content;
use hhe_core::project::Project;

fn parser() -> ProjectParser {
    ProjectParser::new("root")
}

#[test]
fn round_trip_three_sections() {
    let room = parser().parse_room("A\n---\nBC`x`D\n---\nE");
    assert_eq!(room.pre, "A");
    assert_eq!(room.post, "E");
    assert_eq!(room.content.len(), 4);
    match &room.content[0] {
        Content::Char(c) => assert_eq!(*c, 'B'),
        _ => panic!("expected a literal"),
    }
    match &room.content[1] {
        Content::Char(c) => assert_eq!(*c, 'C'),
        _ => panic!("expected a literal"),
    }
    match &room.content[2] {
        Content::Lisp(s) => assert_eq!(s, "x"),
        _ => panic!("expected a script block"),
    }
    match &room.content[3] {
        Content::Char(c) => assert_eq!(*c, 'D'),
        _ => panic!("expected a literal"),
    }
}

#[test]
fn missing_delimiters_leave_later_sections_empty() {
    let room = parser().parse_room("only a pre script");
    assert_eq!(room.pre, "only a pre script");
    assert_eq!(room.post, "");
    assert!(room.content.is_empty());

    let room2 = parser().parse_room("pre\n---\nab");
    assert_eq!(room2.pre, "pre");
    assert_eq!(room2.content.len(), 2);
    assert_eq!(room2.post, "");
}

#[test]
fn empty_file_yields_empty_room() {
    let room = parser().parse_room("");
    assert_eq!(room.pre, "");
    assert_eq!(room.post, "");
    assert!(room.content.is_empty());
}

#[test]
fn delimiter_allows_trailing_whitespace() {
    let room = parser().parse_room("x\n---  \ny\n---\t\nz");
    assert_eq!(room.pre, "x");
    assert_eq!(room.content.len(), 1);
    match &room.content[0] {
        Content::Char(c) => assert_eq!(*c, 'y'),
        _ => panic!("expected a literal"),
    }
    assert_eq!(room.post, "z");
}

#[test]
fn extra_delimiters_are_inert() {
    let room = parser().parse_room("a\n---\nb\n---\nc\n---\nd");
    assert_eq!(room.pre, "a");
    assert_eq!(room.post, "c");
}

#[test]
fn sections_are_trimmed() {
    let room = parser().parse_room("  a  \n---\n  b  \n---\n  c  ");
    assert_eq!(room.pre, "a");
    assert_eq!(room.content.len(), 1);
    match &room.content[0] {
        Content::Char(c) => assert_eq!(*c, 'b'),
        _ => panic!("expected a literal"),
    }
    assert_eq!(room.post, "c");
}

#[test]
fn newlines_in_content_are_literals() {
    let room = parser().parse_room("p\n---\na\nb\n---\nq");
    assert_eq!(room.content.len(), 3);
    match &room.content[1] {
        Content::Char(c) => assert_eq!(*c, '\n'),
        _ => panic!("expected a literal line feed"),
    }
}

#[test]
fn unterminated_script_block_is_still_emitted() {
    let units = parse_content("ab`cd");
    assert_eq!(units.len(), 3);
    match &units[2] {
        Content::Lisp(s) => assert_eq!(s, "cd"),
        _ => panic!("expected a script block"),
    }
}

#[test]
fn empty_script_block_is_emitted() {
    let units = parse_content("``");
    assert_eq!(units.len(), 1);
    match &units[0] {
        Content::Lisp(s) => assert_eq!(s, ""),
        _ => panic!("expected a script block"),
    }
}

#[test]
fn carriage_returns_are_stripped_at_line_ends() {
    let room = parser().parse_room("a\r\n---\r\nb\r\n---\r\nc");
    assert_eq!(room.pre, "a");
    assert_eq!(room.content.len(), 1);
    assert_eq!(room.post, "c");
}

#[test]
fn parse_rooms_stores_rooms_by_name() {
    let mut p = parser();
    let mut proj = Project::new();
    let files = vec![
        ("one".to_string(), "p1\n---\na\n---\nq1".to_string()),
        ("two".to_string(), "p2\n---\nb\n---\nq2".to_string()),
    ];
    p.parse_rooms(&mut proj, &files);
    assert_eq!(proj.rooms.len(), 2);
    let i = proj.room_index(&"one".to_string()).unwrap();
    assert_eq!(proj.rooms[i].1.pre, "p1");
    let j = proj.room_index(&"two".to_string()).unwrap();
    assert_eq!(proj.rooms[j].1.post, "q2");
}

#[test]
fn parse_rooms_later_file_replaces_earlier() {
    let mut p = parser();
    let mut proj = Project::new();
    let files = vec![
        ("one".to_string(), "old\n---\n\n---\n".to_string()),
        ("one".to_string(), "new\n---\n\n---\n".to_string()),
    ];
    p.parse_rooms(&mut proj, &files);
    assert_eq!(proj.rooms.len(), 1);
    let i = proj.room_index(&"one".to_string()).unwrap();
    assert_eq!(proj.rooms[i].1.pre, "new");
}

#[test]
fn build_project_defaults_the_author() {
    let p = parser();
    let proj = p.build_project();
    assert_eq!(proj.author, "No author provided");
    assert_eq!(proj.name, "");
    assert!(proj.rooms.is_empty());
}

#[test]
fn room_index_misses_unknown_names() {
    let proj = Project::new();
    assert!(proj.room_index(&"nowhere".to_string()).is_none());
}

#[test]
fn script_blocks_may_span_lines() {
    let units = parse_content("x`(a\nb)`");
    assert_eq!(units.len(), 2);
    match &units[1] {
        Content::Lisp(b) => assert_eq!(b, "(a\nb)"),
        _ => panic!("expected a script block"),
    }
}
