//! The authored room-file format and its parser.
//!
//! A room file is plain text in three sections separated by lines whose
//! trimmed text is exactly `---`: a pre-script, the content, and a
//! post-script.  The content section is tokenized into a stream of literal
//! characters and embedded script blocks delimited by backticks.  Fewer
//! than two delimiter lines leave the later sections empty; delimiters
//! beyond the third section are inert.

use vstd::prelude::*;

use crate::project::Content;
use crate::project::ContentView;
use crate::project::Project;
use crate::project::Room;
use crate::text::chars_to_string;
use crate::text::str_chars;
use crate::text::trim_chars;
use crate::text::is_space;
use crate::text::trim_spec;
use crate::text::trim_end_spec;

verus! {

/// Project metadata as read from the project's configuration file.
#[derive(Debug)]
pub struct Metadata {
    pub settings: MetadataSettings,
    pub meta: MetadataInfo,
}

/// Which room a story starts in and which folders hold its room files.
#[derive(Debug)]
pub struct MetadataSettings {
    pub first_room: String,
    pub rooms_folder: Vec<String>,
}

/// The story's display name and optional author.
#[derive(Debug)]
pub struct MetadataInfo {
    pub author: Option<String>,
    pub name: String,
}

impl Clone for MetadataSettings {
    /// The clone reads the same.
    fn clone(&self) -> (r: Self)
        ensures
            r.first_room@ == self.first_room@,
            r.rooms_folder.deep_view() == self.rooms_folder.deep_view(),
    {
        let rooms_folder = self.rooms_folder.clone();
        proof {
            assert forall|i: int| 0 <= i < rooms_folder.deep_view().len() implies rooms_folder
                .deep_view()[i] == self.rooms_folder.deep_view()[i] by {
                assert(cloned::<String>(self.rooms_folder[i], rooms_folder[i]));
            }
            assert(rooms_folder.deep_view() =~= self.rooms_folder.deep_view());
        }
        MetadataSettings { first_room: self.first_room.clone(), rooms_folder }
    }
}

impl Clone for MetadataInfo {
    /// The clone reads the same.
    fn clone(&self) -> (r: Self)
        ensures
            r.name@ == self.name@,
            (match self.author {
                Some(a) => r.author matches Some(b) && b@ == a@,
                None => r.author is None,
            }),
    {
        let author = match &self.author {
            Some(a) => Some(a.clone()),
            None => None,
        };
        MetadataInfo { author, name: self.name.clone() }
    }
}

impl Clone for Metadata {
    /// The clone reads the same.
    fn clone(&self) -> (r: Self)
        ensures
            r.settings.first_room@ == self.settings.first_room@,
            r.settings.rooms_folder.deep_view() == self.settings.rooms_folder.deep_view(),
            r.meta.name@ == self.meta.name@,
            (match self.meta.author {
                Some(a) => r.meta.author matches Some(b) && b@ == a@,
                None => r.meta.author is None,
            }),
    {
        Metadata { settings: self.settings.clone(), meta: self.meta.clone() }
    }
}

impl Metadata {
    /// Metadata with every field blank.
    pub fn new() -> (r: Metadata)
        ensures
            r.settings.first_room@.len() == 0,
            r.settings.rooms_folder@.len() == 0,
            r.meta.author is None,
            r.meta.name@.len() == 0,
    {
        Metadata {
            settings: MetadataSettings { first_room: String::new(), rooms_folder: Vec::new() },
            meta: MetadataInfo { author: None, name: String::new() },
        }
    }
}

/// A line with one trailing carriage return removed, as the line splitter
/// removes it at a line feed.
pub open spec fn strip_cr(l: Seq<char>) -> Seq<char> {
    if l.len() > 0 && l[l.len() - 1] == '\r' {
        l.drop_last()
    } else {
        l
    }
}

/// The lines of `s` from position `i` on, given the characters `cur`
/// accumulated for the current line.  A line feed ends a line (removing a
/// carriage return just before it); a last line without a line feed still
/// counts, but a trailing line feed adds no empty line.
pub open spec fn split_lines_from(s: Seq<char>, i: int, cur: Seq<char>) -> Seq<Seq<char>>
    decreases s.len() - i,
{
    if i < 0 || i >= s.len() {
        if cur.len() > 0 {
            seq![cur]
        } else {
            Seq::empty()
        }
    } else if s[i] == '\n' {
        seq![strip_cr(cur)] + split_lines_from(s, i + 1, Seq::empty())
    } else {
        split_lines_from(s, i + 1, cur.push(s[i]))
    }
}

/// The lines of `s`.
pub open spec fn split_lines(s: Seq<char>) -> Seq<Seq<char>> {
    split_lines_from(s, 0, Seq::empty())
}

/// Whether the line consists of `---`, allowing trailing whitespace.
pub open spec fn is_delim(l: Seq<char>) -> bool {
    trim_end_spec(l) == seq!['-', '-', '-']
}

/// The three section texts accumulated from `lines[i..]`, starting with
/// section counter `counter`, current buffer `buf`, and the sections
/// gathered so far.  A delimiter line closes the current section;
/// any other line joins the buffer followed by a line feed.
pub open spec fn section_fold(
    lines: Seq<Seq<char>>,
    i: int,
    counter: int,
    buf: Seq<char>,
    s0: Seq<char>,
    s1: Seq<char>,
    s2: Seq<char>,
) -> (Seq<char>, Seq<char>, Seq<char>)
    decreases lines.len() - i,
{
    if i < 0 || i >= lines.len() {
        if counter == 0 {
            (buf, s1, s2)
        } else if counter == 1 {
            (s0, buf, s2)
        } else if counter == 2 {
            (s0, s1, buf)
        } else {
            (s0, s1, s2)
        }
    } else if is_delim(lines[i]) {
        if counter == 0 {
            section_fold(lines, i + 1, 1, Seq::empty(), buf, s1, s2)
        } else if counter == 1 {
            section_fold(lines, i + 1, 2, Seq::empty(), s0, buf, s2)
        } else if counter == 2 {
            section_fold(lines, i + 1, 3, Seq::empty(), s0, s1, buf)
        } else {
            section_fold(lines, i + 1, counter, Seq::empty(), s0, s1, s2)
        }
    } else {
        section_fold(lines, i + 1, counter, buf + lines[i] + seq!['\n'], s0, s1, s2)
    }
}

/// The raw pre, content and post section texts of a room file.
pub open spec fn sections_spec(text: Seq<char>) -> (Seq<char>, Seq<char>, Seq<char>) {
    section_fold(
        split_lines(text),
        0,
        0,
        Seq::empty(),
        Seq::empty(),
        Seq::empty(),
        Seq::empty(),
    )
}

/// A literal-character unit.
pub open spec fn cv_char(c: char) -> ContentView {
    ContentView::Char(c)
}

/// A script-block unit holding the block's source characters.
pub open spec fn cv_lisp(b: Seq<char>) -> ContentView {
    ContentView::Lisp(b)
}

/// The content units of `s` from position `i` on.  Outside a script block
/// every character is one literal unit; an unescaped backtick opens a
/// block, whose characters accumulate in `buf` until the closing backtick
/// emits them as one script unit.  A block left open at the end of input
/// is still emitted.
pub open spec fn tokenize_from(s: Seq<char>, i: int, in_lisp: bool, buf: Seq<char>) -> Seq<
    ContentView,
>
    decreases s.len() - i,
{
    if i < 0 || i >= s.len() {
        if in_lisp {
            seq![cv_lisp(buf)]
        } else {
            Seq::empty()
        }
    } else if s[i] == '`' {
        if in_lisp {
            seq![cv_lisp(buf)] + tokenize_from(s, i + 1, false, Seq::empty())
        } else {
            tokenize_from(s, i + 1, true, Seq::empty())
        }
    } else {
        if in_lisp {
            tokenize_from(s, i + 1, true, buf.push(s[i]))
        } else {
            seq![cv_char(s[i])] + tokenize_from(s, i + 1, false, Seq::empty())
        }
    }
}

/// The content units of the (already trimmed) content section `s`.
pub open spec fn tokenize(s: Seq<char>) -> Seq<ContentView> {
    tokenize_from(s, 0, false, Seq::empty())
}

/// The parsed room of a room file: trimmed pre-script, tokenized trimmed
/// content, trimmed post-script.
pub open spec fn parse_room_spec(text: Seq<char>) -> (Seq<char>, Seq<ContentView>, Seq<char>) {
    let (s0, s1, s2) = sections_spec(text);
    (trim_spec(s0), tokenize(trim_spec(s1)), trim_spec(s2))
}

/// The number of characters that remain of `v` once trailing whitespace
/// goes.
fn trim_end_len(v: &Vec<char>) -> (hi: usize)
    ensures
        hi <= v@.len(),
        trim_end_spec(v@) == v@.subrange(0, hi as int),
{
    let mut hi: usize = v.len();
    proof {
        assert(v@.subrange(0, hi as int) =~= v@);
    }
    while hi > 0 && is_space(v[hi - 1])
        invariant
            hi <= v@.len(),
            trim_end_spec(v@) == trim_end_spec(v@.subrange(0, hi as int)),
        decreases hi,
    {
        proof {
            assert(v@.subrange(0, hi as int).drop_last() =~= v@.subrange(0, hi - 1));
        }
        hi = hi - 1;
    }
    proof {
        if hi > 0 {
            assert(trim_end_spec(v@.subrange(0, hi as int)) =~= v@.subrange(0, hi as int));
        } else {
            assert(v@.subrange(0, 0) =~= Seq::<char>::empty());
        }
    }
    hi
}

/// Whether the line reads `---` up to trailing whitespace.
fn is_delim_line(v: &Vec<char>) -> (r: bool)
    ensures
        r == is_delim(v@),
{
    let hi = trim_end_len(v);
    if hi != 3 {
        proof {
            assert(trim_end_spec(v@).len() == hi);
        }
        false
    } else {
        let r = v[0] == '-' && v[1] == '-' && v[2] == '-';
        proof {
            if r {
                assert(trim_end_spec(v@) =~= seq!['-', '-', '-']);
            } else {
                assert(trim_end_spec(v@) != seq!['-', '-', '-']) by {
                    if trim_end_spec(v@) == seq!['-', '-', '-'] {
                        assert(v@.subrange(0, 3)[0] == v@[0]);
                        assert(v@.subrange(0, 3)[1] == v@[1]);
                        assert(v@.subrange(0, 3)[2] == v@[2]);
                    }
                }
            }
        }
        r
    }
}

/// The lines of the character vector `chars`.
fn split_text_lines(chars: &Vec<char>) -> (lines: Vec<Vec<char>>)
    ensures
        lines.deep_view() == split_lines(chars@),
{
    let mut lines: Vec<Vec<char>> = Vec::new();
    let mut cur: Vec<char> = Vec::new();
    let mut i: usize = 0;
    while i < chars.len()
        invariant
            i <= chars@.len(),
            split_lines(chars@) == lines.deep_view() + split_lines_from(chars@, i as int, cur@),
        decreases chars@.len() - i,
    {
        let ghost prev_lines = lines.deep_view();
        let ghost prev_cur = cur@;
        let c = chars[i];
        if c == '\n' {
            if cur.len() > 0 && cur[cur.len() - 1] == '\r' {
                cur.pop();
            }
            proof {
                assert(cur@ == strip_cr(prev_cur));
            }
            lines.push(cur);
            cur = Vec::new();
            proof {
                assert(lines.deep_view() =~~= prev_lines.push(strip_cr(prev_cur)));
                assert(prev_lines + seq![strip_cr(prev_cur)] =~~= lines.deep_view());
                assert(prev_lines + (seq![strip_cr(prev_cur)] + split_lines_from(
                    chars@,
                    i + 1,
                    Seq::empty(),
                )) =~~= lines.deep_view() + split_lines_from(chars@, i + 1, Seq::empty()));
            }
        } else {
            cur.push(c);
        }
        i = i + 1;
    }
    if cur.len() > 0 {
        let ghost prev_lines = lines.deep_view();
        let ghost prev_cur = cur@;
        lines.push(cur);
        proof {
            assert(lines.deep_view() =~~= prev_lines + seq![prev_cur]);
        }
    } else {
        proof {
            assert(lines.deep_view() =~~= lines.deep_view() + split_lines_from(
                chars@,
                chars@.len() as int,
                cur@,
            ));
        }
    }
    lines
}

/// Mapping the view over a stream extended by one unit appends that
/// unit's view.
proof fn lemma_map_view_push(s: Seq<Content>, x: Content)
    ensures
        (s.push(x)).map_values(|c: Content| c@) == s.map_values(|c: Content| c@).push(x@),
{
    assert((s.push(x)).map_values(|c: Content| c@) =~= s.map_values(|c: Content| c@).push(x@));
}

/// Tokenizes a content section into its stream of literal characters and
/// embedded script blocks.
pub fn parse_content(buf: &str) -> (r: Vec<Content>)
    ensures
        r@.map_values(|c: Content| c@) == tokenize(buf@),
{
    let chars = str_chars(buf);
    parse_content_chars(&chars)
}

/// As `parse_content`, over an already split character vector.
fn parse_content_chars(chars: &Vec<char>) -> (r: Vec<Content>)
    ensures
        r@.map_values(|c: Content| c@) == tokenize(chars@),
{
    let mut out: Vec<Content> = Vec::new();
    let mut in_lisp = false;
    let mut buf: Vec<char> = Vec::new();
    let mut i: usize = 0;
    while i < chars.len()
        invariant
            i <= chars@.len(),
            !in_lisp ==> buf@.len() == 0,
            tokenize(chars@) == out@.map_values(|c: Content| c@) + tokenize_from(
                chars@,
                i as int,
                in_lisp,
                buf@,
            ),
        decreases chars@.len() - i,
    {
        let ghost prev_out = out@.map_values(|c: Content| c@);
        let ghost prev_vec = out@;
        let c = chars[i];
        if c == '`' {
            if in_lisp {
                let s = chars_to_string(&buf);
                out.push(Content::Lisp(s));
                proof {
                    lemma_map_view_push(prev_vec, Content::Lisp(s));
                    let x = cv_lisp(buf@);
                    let t = tokenize_from(chars@, i + 1, false, Seq::empty());
                    assert(tokenize_from(chars@, i as int, true, buf@) == seq![x] + t);
                    assert(out@.map_values(|c: Content| c@) == prev_out.push(x));
                    assert(prev_out.push(x) =~= prev_out + seq![x]);
                    assert((prev_out + seq![x]) + t =~= prev_out + (seq![x] + t));
                }
                buf = Vec::new();
                in_lisp = false;
                proof {
                    assert(buf@ =~= Seq::<char>::empty());
                }
            } else {
                in_lisp = true;
                proof {
                    assert(buf@ =~= Seq::<char>::empty());
                }
            }
        } else {
            if in_lisp {
                let ghost prev_buf = buf@;
                buf.push(c);
                proof {
                    assert(buf@ == prev_buf.push(chars@[i as int]));
                    assert(tokenize_from(chars@, i as int, true, prev_buf) == tokenize_from(
                        chars@,
                        i + 1,
                        true,
                        buf@,
                    ));
                }
            } else {
                out.push(Content::Char(c));
                proof {
                    lemma_map_view_push(prev_vec, Content::Char(c));
                    let x = cv_char(chars@[i as int]);
                    let t = tokenize_from(chars@, i + 1, false, Seq::empty());
                    assert(buf@ =~= Seq::<char>::empty());
                    assert(tokenize_from(chars@, i as int, false, buf@) == seq![x] + t);
                    assert(out@.map_values(|c: Content| c@) == prev_out.push(x));
                    assert(prev_out.push(x) =~= prev_out + seq![x]);
                    assert((prev_out + seq![x]) + t =~= prev_out + (seq![x] + t));
                }
            }
        }
        i = i + 1;
    }
    if in_lisp {
        let ghost prev_out = out@.map_values(|c: Content| c@);
        let ghost prev_vec = out@;
        let s = chars_to_string(&buf);
        out.push(Content::Lisp(s));
        proof {
            lemma_map_view_push(prev_vec, Content::Lisp(s));
            assert(out@.map_values(|c: Content| c@) == prev_out.push(ContentView::Lisp(buf@)));
            assert(prev_out + seq![ContentView::Lisp(buf@)] =~= out@.map_values(
                |c: Content| c@,
            ));
        }
    } else {
        proof {
            assert(out@.map_values(|c: Content| c@) + tokenize_from(
                chars@,
                chars@.len() as int,
                false,
                buf@,
            ) =~~= out@.map_values(|c: Content| c@));
        }
    }
    out
}

/// Loads room files into projects; the host hands it the text of each
/// file, keyed by the room name the file name yields.
pub struct ProjectParser {
    pub root: String,
    pub metadata: Metadata,
}

impl ProjectParser {
    /// A parser rooted at the given project folder path, with blank
    /// metadata until the host fills it from the project's configuration.
    pub fn new(folder_path: &str) -> (r: ProjectParser)
        ensures
            r.root@ == folder_path@,
            r.metadata.settings.first_room@.len() == 0,
            r.metadata.settings.rooms_folder@.len() == 0,
            r.metadata.meta.author is None,
            r.metadata.meta.name@.len() == 0,
    {
        ProjectParser { root: folder_path.to_owned(), metadata: Metadata::new() }
    }

    /// Builds the empty project that loading starts from: named after the
    /// metadata, with the author defaulted when the metadata names none,
    /// and no rooms yet.
    pub fn build_project(&self) -> (p: Project)
        ensures
            p.wf(),
            p.rooms@.len() == 0,
            p.name@ == self.metadata.meta.name@,
            p.meta.settings.first_room@ == self.metadata.settings.first_room@,
            p.meta.settings.rooms_folder.deep_view()
                == self.metadata.settings.rooms_folder.deep_view(),
            (match self.metadata.meta.author {
                Some(a) => p.author@ == a@,
                None => p.author@ == "No author provided"@,
            }),
    {
        let author = match &self.metadata.meta.author {
            Some(a) => a.clone(),
            None => "No author provided".to_owned(),
        };
        Project {
            rooms: Vec::new(),
            name: self.metadata.meta.name.clone(),
            meta: self.metadata.clone(),
            author,
        }
    }

    /// Parses the text of one room file into a room: three sections split
    /// on `---` delimiter lines, each trimmed of surrounding whitespace,
    /// the content section tokenized into its unit stream.
    pub fn parse_room(&self, text: &str) -> (room: Room)
        ensures
            room.pre@ == parse_room_spec(text@).0,
            room.content@.map_values(|c: Content| c@) == parse_room_spec(text@).1,
            room.post@ == parse_room_spec(text@).2,
    {
        let chars = str_chars(text);
        let lines = split_text_lines(&chars);
        let ghost ls = lines.deep_view();

        let mut counter: usize = 0;
        let mut buf: Vec<char> = Vec::new();
        let mut s0: Vec<char> = Vec::new();
        let mut s1: Vec<char> = Vec::new();
        let mut s2: Vec<char> = Vec::new();
        let mut i: usize = 0;
        while i < lines.len()
            invariant
                i <= ls.len(),
                ls == lines.deep_view(),
                ls.len() == lines@.len(),
                sections_spec(chars@) == section_fold(
                    ls,
                    i as int,
                    counter as int,
                    buf@,
                    s0@,
                    s1@,
                    s2@,
                ),
            decreases ls.len() - i,
        {
            proof {
                assert(ls[i as int] == lines@[i as int].deep_view());
                assert(lines@[i as int].deep_view() =~= lines@[i as int]@);
            }
            if is_delim_line(&lines[i]) {
                if counter == 0 {
                    s0 = buf;
                } else if counter == 1 {
                    s1 = buf;
                } else if counter == 2 {
                    s2 = buf;
                }
                buf = Vec::new();
                if counter < 3 {
                    counter = counter + 1;
                }
            } else {
                let ghost prev_buf = buf@;
                let mut k: usize = 0;
                let line = &lines[i];
                while k < line.len()
                    invariant
                        k <= line@.len(),
                        line@ == ls[i as int],
                        buf@ == prev_buf + line@.subrange(0, k as int),
                    decreases line@.len() - k,
                {
                    buf.push(line[k]);
                    k = k + 1;
                    proof {
                        assert(buf@ =~= prev_buf + line@.subrange(0, k as int));
                    }
                }
                buf.push('\n');
                proof {
                    assert(line@.subrange(0, line@.len() as int) =~= line@);
                    assert(buf@ =~= prev_buf + ls[i as int] + seq!['\n']);
                }
            }
            i = i + 1;
        }
        proof {
            if counter == 0 {
                assert(sections_spec(chars@) == (buf@, s1@, s2@));
            } else if counter == 1 {
                assert(sections_spec(chars@) == (s0@, buf@, s2@));
            } else if counter == 2 {
                assert(sections_spec(chars@) == (s0@, s1@, buf@));
            }
        }
        if counter == 0 {
            s0 = buf;
        } else if counter == 1 {
            s1 = buf;
        } else if counter == 2 {
            s2 = buf;
        }

        let pre_t = trim_chars(&s0);
        let cont_t = trim_chars(&s1);
        let post_t = trim_chars(&s2);
        let pre = chars_to_string(&pre_t);
        let post = chars_to_string(&post_t);
        let content = parse_content_chars(&cont_t);
        Room { pre, post, content }
    }

    /// Parses each handed room file and stores the room it yields under
    /// its name; a later file of the same name replaces an earlier one.
    /// The host collects the `(name, text)` pairs by walking the room
    /// folders the metadata names.
    pub fn parse_rooms(&mut self, proj: &mut Project, files: &Vec<(String, String)>)
        requires
            old(proj).wf(),
        ensures
            final(proj).wf(),
            final(proj).author == old(proj).author,
            final(proj).name == old(proj).name,
            final(proj).meta == old(proj).meta,
            forall|n: Seq<char>|
                final(proj).has_room(n) <==> (old(proj).has_room(n) || exists|k: int|
                    0 <= k < files@.len() && files@[k].0@ == n),
            forall|k: int|
                #![trigger files@[k]]
                0 <= k < files@.len() && (forall|m: int|
                    k < m < files@.len() ==> files@[m].0@ != files@[k].0@) ==> {
                    let room = final(proj).spec_room(files@[k].0@);
                    &&& room.pre@ == parse_room_spec(files@[k].1@).0
                    &&& room.content@.map_values(|c: Content| c@) == parse_room_spec(
                        files@[k].1@,
                    ).1
                    &&& room.post@ == parse_room_spec(files@[k].1@).2
                },
            forall|n: Seq<char>|
                old(proj).has_room(n) && (forall|k: int|
                    0 <= k < files@.len() ==> files@[k].0@ != n) ==> final(proj).spec_room(n)
                    == old(proj).spec_room(n),
    {
        let mut k: usize = 0;
        while k < files.len()
            invariant
                k <= files@.len(),
                proj.wf(),
                proj.author == old(proj).author,
                proj.name == old(proj).name,
                proj.meta == old(proj).meta,
                forall|n: Seq<char>|
                    proj.has_room(n) <==> (old(proj).has_room(n) || exists|m: int|
                        0 <= m < k && files@[m].0@ == n),
                forall|m: int|
                    #![trigger files@[m]]
                    0 <= m < k && (forall|m2: int| m < m2 < k ==> files@[m2].0@ != files@[m].0@)
                        ==> {
                        let room = proj.spec_room(files@[m].0@);
                        &&& room.pre@ == parse_room_spec(files@[m].1@).0
                        &&& room.content@.map_values(|c: Content| c@) == parse_room_spec(
                            files@[m].1@,
                        ).1
                        &&& room.post@ == parse_room_spec(files@[m].1@).2
                    },
                forall|n: Seq<char>|
                    old(proj).has_room(n) && (forall|m: int|
                        0 <= m < k ==> files@[m].0@ != n) ==> proj.spec_room(n) == old(
                        proj,
                    ).spec_room(n),
            decreases files@.len() - k,
        {
            let name = files[k].0.clone();
            let room = self.parse_room(files[k].1.as_str());
            proj.insert_room(name, room);
            k = k + 1;
        }
    }
}

} // verus!
