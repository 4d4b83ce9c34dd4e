//! Shared story state and the reveal scheduler.
//!
//! `EnvData` is the one mutable container: title, display, options,
//! listeners, current room, debug log and quit flag.  The host owns it and
//! lends it to every native function and to the renderer.  `Environment`
//! keeps the scheduler's own bookkeeping: the carried time remainder, the
//! time of the previous frame, and the room last loaded.
//!
//! One host frame runs `update_room` (evaluating the pre-script it may
//! hand back), then `update_ticks`, then that many `tick_content` calls;
//! when a tick hands a script block back, the host evaluates it and then
//! calls `advance_cursor`, so the block's side effects land before the
//! cursor moves on.  The frame closes with `end_frame`.  Script
//! evaluation stays with the host because evaluated blocks call back
//! into this state through the native functions.

use vstd::prelude::*;

use crate::lisp::color::Color;
use crate::project::ContentView;
use crate::project::Project;
use crate::script::ScriptArg;
use crate::text::chars_to_string;
use vstd::arithmetic::div_mod::lemma_fundamental_div_mod;
use vstd::arithmetic::div_mod::lemma_fundamental_div_mod_converse;

verus! {

/// One revealed glyph: a character together with the full style in force
/// at the moment it was emitted.  The style is a snapshot, not a
/// reference: later style commands never restyle a glyph already emitted.
#[derive(Clone, Copy, Debug, PartialEq, Eq, Structural)]
pub struct ContentChar {
    pub ch: char,
    pub fg: Color,
    pub bg: Color,
    pub bold: bool,
    pub italic: bool,
    pub underline: bool,
    pub crossed: bool,
}

impl Default for ContentChar {
    /// A space glyph in the default style.
    fn default() -> (r: Self)
        ensures
            r == (ContentChar {
                ch: ' ',
                fg: Color(0u8, 0u8, 0u8),
                bg: Color(0u8, 0u8, 0u8),
                bold: false,
                italic: false,
                underline: false,
                crossed: false,
            }),
    {
        ContentChar {
            ch: ' ',
            bold: false,
            fg: Color(0, 0, 0),
            bg: Color(0, 0, 0),
            crossed: false,
            italic: false,
            underline: false,
        }
    }
}

/// The visible buffer: the glyphs revealed so far, in order of emission.
#[derive(Clone, Debug)]
pub struct Content(pub Vec<ContentChar>);

impl View for Content {
    type V = Seq<ContentChar>;

    open spec fn view(&self) -> Seq<ContentChar> {
        self.0@
    }
}

/// The glyphs of one rendered line, between line-feed glyphs.
pub open spec fn glyph_lines_from(s: Seq<ContentChar>, i: int, cur: Seq<ContentChar>) -> Seq<
    Seq<ContentChar>,
>
    decreases s.len() - i,
{
    if i < 0 || i >= s.len() {
        if cur.len() > 0 {
            seq![cur]
        } else {
            Seq::empty()
        }
    } else if s[i].ch == '\n' {
        seq![cur] + glyph_lines_from(s, i + 1, Seq::empty())
    } else {
        glyph_lines_from(s, i + 1, cur.push(s[i]))
    }
}

/// The visible buffer grouped into lines on line-feed glyphs.  The
/// line-feed glyphs themselves appear in no line; a trailing empty line
/// is not kept.
pub open spec fn glyph_lines(s: Seq<ContentChar>) -> Seq<Seq<ContentChar>> {
    glyph_lines_from(s, 0, Seq::empty())
}

impl Content {
    /// An empty buffer.
    pub fn new() -> (r: Content)
        ensures
            r@.len() == 0,
    {
        Content(Vec::new())
    }

    /// The buffer's characters as one unstyled string.
    pub fn to_raw(&self) -> (r: String)
        ensures
            r@ == self@.map_values(|c: ContentChar| c.ch),
    {
        let mut chars: Vec<char> = Vec::new();
        let mut i: usize = 0;
        while i < self.0.len()
            invariant
                i <= self.0@.len(),
                chars@ == self.0@.subrange(0, i as int).map_values(|c: ContentChar| c.ch),
            decreases self.0@.len() - i,
        {
            chars.push(self.0[i].ch);
            i = i + 1;
            proof {
                assert(chars@ =~= self.0@.subrange(0, i as int).map_values(
                    |c: ContentChar| c.ch,
                ));
            }
        }
        proof {
            assert(self.0@.subrange(0, self.0@.len() as int) =~= self.0@);
        }
        chars_to_string(&chars)
    }

    /// The buffer grouped into lines, for the renderer: glyphs between
    /// line-feed glyphs, in order.
    pub fn to_lines(&self) -> (r: Vec<Vec<ContentChar>>)
        ensures
            r@.map_values(|l: Vec<ContentChar>| l@) == glyph_lines(self@),
    {
        let mut lines: Vec<Vec<ContentChar>> = Vec::new();
        let mut cur: Vec<ContentChar> = Vec::new();
        let mut i: usize = 0;
        while i < self.0.len()
            invariant
                i <= self.0@.len(),
                glyph_lines(self@) == lines@.map_values(|l: Vec<ContentChar>| l@)
                    + glyph_lines_from(self.0@, i as int, cur@),
            decreases self.0@.len() - i,
        {
            let ghost prev_lines = lines@.map_values(|l: Vec<ContentChar>| l@);
            let ghost prev_cur = cur@;
            let g = self.0[i];
            if g.ch == '\n' {
                lines.push(cur);
                cur = Vec::new();
                proof {
                    assert(lines@.map_values(|l: Vec<ContentChar>| l@) =~= prev_lines.push(
                        prev_cur,
                    ));
                    assert(prev_lines + (seq![prev_cur] + glyph_lines_from(
                        self.0@,
                        i + 1,
                        Seq::empty(),
                    )) =~= prev_lines.push(prev_cur) + glyph_lines_from(
                        self.0@,
                        i + 1,
                        Seq::empty(),
                    ));
                }
            } else {
                cur.push(g);
            }
            i = i + 1;
        }
        if cur.len() > 0 {
            let ghost prev_lines = lines@.map_values(|l: Vec<ContentChar>| l@);
            let ghost prev_cur = cur@;
            lines.push(cur);
            proof {
                assert(lines@.map_values(|l: Vec<ContentChar>| l@) =~= prev_lines + seq![
                    prev_cur,
                ]);
            }
        } else {
            proof {
                assert(lines@.map_values(|l: Vec<ContentChar>| l@) =~= lines@.map_values(
                    |l: Vec<ContentChar>| l@,
                ) + glyph_lines_from(self.0@, self.0@.len() as int, cur@));
            }
        }
        lines
    }
}

/// The title bar's text, visibility and style.
#[derive(Clone, Debug)]
pub struct TitleData {
    pub content: String,
    pub show: bool,
    pub fg: Color,
    pub bg: Color,
    pub bold: bool,
    pub italic: bool,
    pub underline: bool,
    pub crossed: bool,
}

impl TitleData {
    /// An empty, hidden title in the default style.
    pub fn new() -> (r: TitleData)
        ensures
            r.content@.len() == 0,
            r.show == false,
            r.fg == Color(0u8, 0u8, 0u8),
            r.bg == Color(0u8, 0u8, 0u8),
            r.bold == false,
            r.italic == false,
            r.underline == false,
            r.crossed == false,
    {
        TitleData {
            content: String::new(),
            show: false,
            fg: Color(0, 0, 0),
            bg: Color(0, 0, 0),
            bold: false,
            italic: false,
            underline: false,
            crossed: false,
        }
    }
}

/// The display: the visible buffer, the reveal cursor and pacing, the
/// emission style that new glyphs snapshot, the renderer's chrome colors,
/// and the scroll offset.
#[derive(Clone, Debug)]
pub struct DisplayData {
    pub content: Content,
    pub delay: i64,
    pub displayed_index: usize,
    pub current_fg: Color,
    pub current_bg: Color,
    pub display_fg: Color,
    pub display_bg: Color,
    pub display_ac: Color,
    pub bold: bool,
    pub italic: bool,
    pub crossed: bool,
    pub underline: bool,
    pub scroll: i32,
}

/// The scroll offset never goes negative.
pub open spec fn display_wf(d: DisplayData) -> bool {
    d.scroll >= 0
}

/// The glyph that revealing `ch` right now would emit: `ch` with the
/// current emission style snapshotted into it.
pub open spec fn style_snapshot(d: DisplayData, ch: char) -> ContentChar {
    ContentChar {
        ch,
        fg: d.current_fg,
        bg: d.current_bg,
        bold: d.bold,
        italic: d.italic,
        underline: d.underline,
        crossed: d.crossed,
    }
}

/// A string's characters, each styled with the given display's current
/// emission style.
pub open spec fn styled_seq(d: DisplayData, s: Seq<char>) -> Seq<ContentChar> {
    s.map_values(|c: char| style_snapshot(d, c))
}

impl DisplayData {
    /// An empty display: no glyphs, cursor at zero, zero delay (paused),
    /// default colors and attributes, no scroll.
    pub fn new() -> (r: DisplayData)
        ensures
            r.content@.len() == 0,
            r.delay == 0,
            r.displayed_index == 0,
            r.current_fg == Color(0u8, 0u8, 0u8),
            r.current_bg == Color(0u8, 0u8, 0u8),
            r.display_fg == Color(0u8, 0u8, 0u8),
            r.display_bg == Color(0u8, 0u8, 0u8),
            r.display_ac == Color(0u8, 0u8, 0u8),
            r.bold == false,
            r.italic == false,
            r.crossed == false,
            r.underline == false,
            r.scroll == 0,
            display_wf(r),
    {
        DisplayData {
            content: Content::new(),
            delay: 0,
            displayed_index: 0,
            current_fg: Color(0, 0, 0),
            current_bg: Color(0, 0, 0),
            display_fg: Color(0, 0, 0),
            display_bg: Color(0, 0, 0),
            display_ac: Color(0, 0, 0),
            bold: false,
            italic: false,
            crossed: false,
            underline: false,
            scroll: 0,
        }
    }

    /// The glyph that revealing `ch` right now emits.
    pub fn to_content_char(&self, ch: char) -> (r: ContentChar)
        ensures
            r == style_snapshot(*self, ch),
    {
        ContentChar {
            bg: self.current_bg,
            fg: self.current_fg,
            bold: self.bold,
            italic: self.italic,
            crossed: self.crossed,
            underline: self.underline,
            ch,
        }
    }
}

/// What activating an option does: navigate to a named room, or hand a
/// script callback back to the interpreter.
#[derive(Clone, Debug)]
pub enum OptionAction {
    Goto(String),
    Script(ScriptArg),
}

/// One player-facing option: a styled label and its activation action.
#[derive(Clone, Debug)]
pub struct OptionDataSingle {
    pub name: Content,
    pub action: OptionAction,
}

/// The option list and the player's current selection.
#[derive(Clone, Debug)]
pub struct OptionData {
    pub options: Vec<OptionDataSingle>,
    pub selected: Option<usize>,
}

impl OptionData {
    /// No options, nothing selected.
    pub fn new() -> (r: OptionData)
        ensures
            r.options@.len() == 0,
            r.selected is None,
    {
        OptionData { options: Vec::new(), selected: None }
    }
}

/// Registered script callbacks for keyboard character events, each under
/// an integer id that only grows.
#[derive(Clone, Debug)]
pub struct ListenerData {
    pub keyboard_char: Vec<(i64, ScriptArg)>,
    pub next_id: i64,
}

/// Listener ids are unique and all below the next id to hand out.
pub open spec fn listeners_wf(l: ListenerData) -> bool {
    &&& forall|i: int, j: int|
        0 <= i < j < l.keyboard_char@.len() ==> l.keyboard_char@[i].0 != l.keyboard_char@[j].0
    &&& forall|i: int| 0 <= i < l.keyboard_char@.len() ==> #[trigger] l.keyboard_char@[i].0
        < l.next_id
}

impl ListenerData {
    /// No listeners; ids start at zero.
    pub fn new() -> (r: ListenerData)
        ensures
            r.keyboard_char@.len() == 0,
            r.next_id == 0,
            listeners_wf(r),
    {
        ListenerData { keyboard_char: Vec::new(), next_id: 0 }
    }
}

/// The shared story state, one instance for the process's lifetime.
#[derive(Debug)]
pub struct EnvData {
    pub title: TitleData,
    pub options: OptionData,
    pub current_room: String,
    pub listeners: ListenerData,
    pub display: DisplayData,
    pub project: Project,
    pub debug: Vec<String>,
    pub quit: bool,
}

/// The state's invariant: display, listener and project well-formedness.
pub open spec fn env_wf(d: EnvData) -> bool {
    &&& display_wf(d.display)
    &&& listeners_wf(d.listeners)
    &&& d.project.wf()
}

impl EnvData {
    /// Fresh state: everything empty, the title hidden and unstyled, the
    /// reveal paused, quit unset.
    pub fn new() -> (r: EnvData)
        ensures
            r.title.content@.len() == 0,
            r.title.show == false,
            r.title.fg == Color(0u8, 0u8, 0u8),
            r.title.bg == Color(0u8, 0u8, 0u8),
            r.title.bold == false,
            r.title.italic == false,
            r.title.underline == false,
            r.title.crossed == false,
            r.options.options@.len() == 0,
            r.current_room@.len() == 0,
            r.listeners.keyboard_char@.len() == 0,
            r.display.content@.len() == 0,
            r.display.displayed_index == 0,
            r.display.delay == 0,
            r.project.rooms@.len() == 0,
            r.debug@.len() == 0,
            r.quit == false,
            env_wf(r),
    {
        EnvData {
            title: TitleData::new(),
            options: OptionData::new(),
            current_room: String::new(),
            listeners: ListenerData::new(),
            display: DisplayData::new(),
            project: Project::new(),
            debug: Vec::new(),
            quit: false,
        }
    }
}

/// All state but the display is unchanged.
pub open spec fn same_except_display(a: EnvData, b: EnvData) -> bool {
    &&& b.title == a.title
    &&& b.options == a.options
    &&& b.current_room == a.current_room
    &&& b.listeners == a.listeners
    &&& b.project == a.project
    &&& b.debug == a.debug
    &&& b.quit == a.quit
}

/// All state but the title is unchanged.
pub open spec fn same_except_title(a: EnvData, b: EnvData) -> bool {
    &&& b.display == a.display
    &&& b.options == a.options
    &&& b.current_room == a.current_room
    &&& b.listeners == a.listeners
    &&& b.project == a.project
    &&& b.debug == a.debug
    &&& b.quit == a.quit
}

/// All state but the option list is unchanged.
pub open spec fn same_except_options(a: EnvData, b: EnvData) -> bool {
    &&& b.title == a.title
    &&& b.display == a.display
    &&& b.current_room == a.current_room
    &&& b.listeners == a.listeners
    &&& b.project == a.project
    &&& b.debug == a.debug
    &&& b.quit == a.quit
}

/// All state but the listener registry is unchanged.
pub open spec fn same_except_listeners(a: EnvData, b: EnvData) -> bool {
    &&& b.title == a.title
    &&& b.display == a.display
    &&& b.options == a.options
    &&& b.current_room == a.current_room
    &&& b.project == a.project
    &&& b.debug == a.debug
    &&& b.quit == a.quit
}

/// All state but the debug log is unchanged.
pub open spec fn same_except_debug(a: EnvData, b: EnvData) -> bool {
    &&& b.title == a.title
    &&& b.display == a.display
    &&& b.options == a.options
    &&& b.current_room == a.current_room
    &&& b.listeners == a.listeners
    &&& b.project == a.project
    &&& b.quit == a.quit
}

/// All state but the current-room pointer is unchanged.
pub open spec fn same_except_room(a: EnvData, b: EnvData) -> bool {
    &&& b.title == a.title
    &&& b.display == a.display
    &&& b.options == a.options
    &&& b.listeners == a.listeners
    &&& b.project == a.project
    &&& b.debug == a.debug
    &&& b.quit == a.quit
}

/// All display state but the visible buffer and the reveal cursor is
/// unchanged.
pub open spec fn display_same_except_buffer(a: DisplayData, b: DisplayData) -> bool {
    &&& b.delay == a.delay
    &&& b.current_fg == a.current_fg
    &&& b.current_bg == a.current_bg
    &&& b.display_fg == a.display_fg
    &&& b.display_bg == a.display_bg
    &&& b.display_ac == a.display_ac
    &&& b.bold == a.bold
    &&& b.italic == a.italic
    &&& b.crossed == a.crossed
    &&& b.underline == a.underline
    &&& b.scroll == a.scroll
}


/// Relies on chrono's `Utc::now().timestamp_millis()`: the wall-clock
/// time, in milliseconds since the epoch.  Nothing is promised of it;
/// the scheduler clamps the frame delta it derives from it.
#[verifier::external_body]
pub(crate) fn now_millis() -> i64 {
    chrono::offset::Utc::now().timestamp_millis()
}

/// `a + b`, saturated at the largest value the accumulator can hold.
pub open spec fn sat_add(a: int, b: int) -> int {
    if a + b <= i64::MAX {
        a + b
    } else {
        i64::MAX as int
    }
}

/// How many ticks an accumulated pending time yields: its quotient by the
/// delay when the delay is positive, none otherwise.
pub open spec fn ticks_from(acc: int, delay: int) -> int {
    if delay > 0 {
        acc / delay
    } else {
        0
    }
}

/// The pending time carried to the next frame: the remainder by the
/// delay's magnitude.  Meaningful for a nonzero delay.
pub open spec fn carry_from(acc: int, delay: int) -> int {
    if delay > 0 {
        acc % delay
    } else {
        acc % (-delay)
    }
}

/// Converts accumulated time into whole ticks.  With a positive delay the
/// pending time plus the new delta yields `quotient` ticks and carries
/// the remainder forward, so no fraction of a tick is ever lost across
/// frames.  A zero delay pauses the reveal: no ticks, and nothing
/// accumulates.  A negative delay yields no ticks either, though the
/// pending time still accumulates and reduces by the delay's magnitude.
/// The sum saturates at the accumulator's largest value.
pub fn compute_ticks(pending: i64, dt: i64, delay: i64) -> (r: (i64, i64))
    requires
        0 <= pending,
        0 <= dt,
    ensures
        delay == 0 ==> r.0 == 0 && r.1 == pending,
        delay != 0 ==> r.0 == ticks_from(sat_add(pending as int, dt as int), delay as int),
        delay != 0 ==> r.1 == carry_from(sat_add(pending as int, dt as int), delay as int),
        r.0 >= 0,
        r.1 >= 0,
        delay > 0 ==> r.1 < delay,
{
    if delay == 0 {
        (0, pending)
    } else {
        let acc: i64 = if dt <= i64::MAX - pending {
            pending + dt
        } else {
            i64::MAX
        };
        if delay > 0 {
            let t = ((acc as u64) / (delay as u64)) as i64;
            let p = ((acc as u64) % (delay as u64)) as i64;
            (t, p)
        } else {
            let m: u64 = if delay == i64::MIN {
                9223372036854775808u64
            } else {
                (-delay) as u64
            };
            let p = ((acc as u64) % m) as i64;
            (0, p)
        }
    }
}

/// The sum of a sequence of frame deltas.
pub open spec fn seq_sum(dts: Seq<int>) -> int
    decreases dts.len(),
{
    if dts.len() == 0 {
        0
    } else {
        dts[0] + seq_sum(dts.drop_first())
    }
}

/// The pending remainder after a run of frames, each folding its delta
/// in exactly as `update_ticks` states per frame: the saturated sum of
/// the carried remainder and the frame's delta, reduced by the delay.
pub open spec fn fold_carry(r0: int, dts: Seq<int>, d: int) -> int
    decreases dts.len(),
{
    if dts.len() == 0 {
        r0
    } else {
        fold_carry(carry_from(sat_add(r0, dts[0]), d), dts.drop_first(), d)
    }
}

/// The total number of ticks a run of frames produces, each frame
/// yielding the ticks `update_ticks` states: the saturated sum of the
/// carried remainder and the frame's delta, divided by the delay.
pub open spec fn fold_ticks(r0: int, dts: Seq<int>, d: int) -> int
    decreases dts.len(),
{
    if dts.len() == 0 {
        0
    } else {
        ticks_from(sat_add(r0, dts[0]), d) + fold_ticks(
            carry_from(sat_add(r0, dts[0]), d),
            dts.drop_first(),
            d,
        )
    }
}

/// Drift-free accumulation: for any positive delay `d`, any starting
/// remainder below `d`, and any sequence of non-negative frame deltas
/// whose total (with the starting remainder) fits the accumulator, the
/// ticks produced over the whole run equal the quotient of the total
/// elapsed time (plus the starting remainder) by `d`, and the final
/// carried remainder equals its remainder by `d` -- however the elapsed
/// time was cut into frames.  Each frame's step here is exactly what
/// `update_ticks` ensures of its frame, so the property holds of any
/// sequence of update calls with that delay in force.
pub proof fn lemma_ticks_drift_free(r0: int, dts: Seq<int>, d: int)
    requires
        d > 0,
        0 <= r0 < d,
        forall|i: int| 0 <= i < dts.len() ==> dts[i] >= 0,
        r0 + seq_sum(dts) <= i64::MAX,
    ensures
        fold_ticks(r0, dts, d) == (r0 + seq_sum(dts)) / d,
        fold_carry(r0, dts, d) == (r0 + seq_sum(dts)) % d,
    decreases dts.len(),
{
    if dts.len() == 0 {
        lemma_fundamental_div_mod_converse(r0, d, 0, r0);
    } else {
        let rest = seq_sum(dts.drop_first());
        assert(rest >= 0) by {
            lemma_seq_sum_nonneg(dts.drop_first());
        }
        let total = r0 + seq_sum(dts);
        let a = r0 + dts[0];
        assert(total == a + rest);
        // the whole run fits, so this frame's sum does not saturate
        assert(a <= i64::MAX);
        assert(sat_add(r0, dts[0]) == a);
        let q = a / d;
        let r1 = a % d;
        lemma_fundamental_div_mod(a, d);
        assert(0 <= r1 < d);
        // the carried remainder never exceeds what was accumulated
        assert(q >= 0 && r1 <= a) by (nonlinear_arith)
            requires
                a == q * d + r1,
                0 <= r1 < d,
                a >= 0,
                d > 0,
        ;
        lemma_ticks_drift_free(r1, dts.drop_first(), d);
        lemma_fundamental_div_mod(r1 + rest, d);
        let qq = (r1 + rest) / d;
        let rr = (r1 + rest) % d;
        assert(total == (q + qq) * d + rr) by (nonlinear_arith)
            requires
                a == q * d + r1,
                r1 + rest == qq * d + rr,
                total == a + rest,
        ;
        lemma_fundamental_div_mod_converse(total, d, q + qq, rr);
    }
}

/// A sequence of non-negative deltas sums to a non-negative total.
pub proof fn lemma_seq_sum_nonneg(dts: Seq<int>)
    requires
        forall|i: int| 0 <= i < dts.len() ==> dts[i] >= 0,
    ensures
        seq_sum(dts) >= 0,
    decreases dts.len(),
{
    if dts.len() > 0 {
        lemma_seq_sum_nonneg(dts.drop_first());
    }
}

/// What a scheduler step found at the reveal cursor: a literal revealed
/// as one glyph, a script block handed back for evaluation, a cursor past
/// the end of the content, or a current room the project does not hold.
pub enum TickOutcome {
    Revealed,
    Script(String),
    Exhausted,
    UnknownRoom,
}

/// What entering a frame found: the same room as before, a new room whose
/// pre-script must now be evaluated, or a current-room name the project
/// does not hold.
pub enum RoomEntry {
    Same,
    Entered(String),
    UnknownRoom,
}

/// The reveal scheduler's bookkeeping: the carried time remainder, the
/// time the previous frame ended, and the room last loaded.
pub struct Environment {
    pub tick_passed: i64,
    pub prev_time: i64,
    pub prev_room: String,
}

impl Environment {
    /// A scheduler that has seen no room yet and carries no time.
    pub fn new() -> (r: Environment)
        ensures
            r.tick_passed == 0,
            r.prev_room@.len() == 0,
    {
        Environment { tick_passed: 0, prev_time: now_millis(), prev_room: String::new() }
    }

    /// Detects a room change.  When the current-room pointer differs from
    /// the room last loaded, the visible buffer, reveal cursor and option
    /// list are reset, the new room is recorded as loaded, and its
    /// pre-script is handed back to be evaluated in full before any tick
    /// runs.  Pacing, style and every other part of the state carry over.
    pub fn update_room(&mut self, data: &mut EnvData) -> (r: RoomEntry)
        requires
            env_wf(*old(data)),
        ensures
            env_wf(*final(data)),
            old(self).prev_room@ == old(data).current_room@ ==> r is Same && *final(data) == *old(
                data,
            ) && *final(self) == *old(self),
            old(self).prev_room@ != old(data).current_room@ ==> {
                &&& final(self).prev_room@ == old(data).current_room@
                &&& final(self).tick_passed == old(self).tick_passed
                &&& final(self).prev_time == old(self).prev_time
                &&& final(data).display.content@.len() == 0
                &&& final(data).display.displayed_index == 0
                &&& display_same_except_buffer(old(data).display, final(data).display)
                &&& final(data).options.options@.len() == 0
                &&& final(data).options.selected is None
                &&& final(data).title == old(data).title
                &&& final(data).current_room == old(data).current_room
                &&& final(data).listeners == old(data).listeners
                &&& final(data).project == old(data).project
                &&& final(data).debug == old(data).debug
                &&& final(data).quit == old(data).quit
                &&& (old(data).project.has_room(old(data).current_room@) ==> (
                r matches RoomEntry::Entered(pre) && pre@ == old(data).project.spec_room(
                    old(data).current_room@,
                ).pre@))
                &&& (!old(data).project.has_room(old(data).current_room@) ==> r is UnknownRoom)
            },
    {
        if crate::text::str_eq(self.prev_room.as_str(), data.current_room.as_str()) {
            return RoomEntry::Same;
        }
        data.display.content = Content::new();
        data.display.displayed_index = 0;
        data.options.options = Vec::new();
        data.options.selected = None;
        self.prev_room = data.current_room.clone();
        match data.project.room_index(&data.current_room) {
            Some(i) => {
                proof {
                    data.project.lemma_spec_room(i as int);
                }
                RoomEntry::Entered(data.project.rooms[i].1.pre.clone())
            },
            None => RoomEntry::UnknownRoom,
        }
    }

    /// Turns the wall-clock time since the previous frame into whole
    /// ticks, carrying the remainder forward as `compute_ticks` states.
    /// A clock that moved backwards contributes no elapsed time.  The
    /// delta itself comes from the clock, so only its effect is stated:
    /// some non-negative delta was folded in.  A zero delay always yields
    /// zero ticks and accumulates nothing; a negative delay yields zero
    /// ticks.
    pub fn update_ticks(&mut self, data: &EnvData) -> (t: i64)
        requires
            old(self).tick_passed >= 0,
        ensures
            final(self).prev_room == old(self).prev_room,
            final(self).prev_time == old(self).prev_time,
            final(self).tick_passed >= 0,
            t >= 0,
            data.display.delay == 0 ==> t == 0 && final(self).tick_passed == old(self).tick_passed,
            data.display.delay < 0 ==> t == 0,
            exists|dt: int|
                #![auto]
                0 <= dt && (if data.display.delay == 0 {
                    t == 0 && final(self).tick_passed == old(self).tick_passed
                } else {
                    t == ticks_from(
                        sat_add(old(self).tick_passed as int, dt),
                        data.display.delay as int,
                    ) && final(self).tick_passed == carry_from(
                        sat_add(old(self).tick_passed as int, dt),
                        data.display.delay as int,
                    )
                }),
    {
        let now = now_millis();
        let dt: i64 = match now.checked_sub(self.prev_time) {
            Some(d) => if d >= 0 {
                d
            } else {
                0
            },
            None => 0,
        };
        let (t, p) = compute_ticks(self.tick_passed, dt, data.display.delay);
        self.tick_passed = p;
        proof {
            assert(0 <= dt as int && (if data.display.delay == 0 {
                t == 0 && self.tick_passed == old(self).tick_passed
            } else {
                t == ticks_from(
                    sat_add(old(self).tick_passed as int, dt as int),
                    data.display.delay as int,
                ) && self.tick_passed == carry_from(
                    sat_add(old(self).tick_passed as int, dt as int),
                    data.display.delay as int,
                )
            }));
        }
        t
    }

    /// Records when this frame ended, so the next frame's delta starts
    /// after the work this one did.
    pub fn end_frame(&mut self)
        ensures
            final(self).tick_passed == old(self).tick_passed,
            final(self).prev_room == old(self).prev_room,
    {
        self.prev_time = now_millis();
    }
}

/// One scheduler tick: the unit at the reveal cursor is consumed.  A
/// literal becomes one glyph carrying a snapshot of the current emission
/// style, appended to the visible buffer, and the cursor advances by
/// one.  A script block's source is handed back for evaluation with the
/// cursor left in place: the block's side effects (which may move the
/// cursor themselves) take effect first, and the host then advances the
/// cursor with `advance_cursor`.  The cursor never passes the end of the
/// content; a cursor already at the end changes nothing, as does a
/// current-room name the project does not hold.
pub fn tick_content(data: &mut EnvData) -> (r: TickOutcome)
    requires
        env_wf(*old(data)),
    ensures
        env_wf(*final(data)),
        same_except_display(*old(data), *final(data)),
        display_same_except_buffer(old(data).display, final(data).display),
        final(data).display.displayed_index >= old(data).display.displayed_index,
        !old(data).project.has_room(old(data).current_room@) ==> r is UnknownRoom && *final(data)
            == *old(data),
        old(data).project.has_room(old(data).current_room@) ==> {
            let room = old(data).project.spec_room(old(data).current_room@);
            let idx = old(data).display.displayed_index as int;
            &&& idx >= room.content@.len() ==> r is Exhausted && *final(data) == *old(data)
            &&& idx < room.content@.len() ==> {
                &&& (room.content@[idx]@ matches ContentView::Char(c) ==> r is Revealed
                    && final(data).display.content@ == old(data).display.content@.push(
                    style_snapshot(old(data).display, c),
                ) && final(data).display.displayed_index == idx + 1
                    && final(data).display.displayed_index <= room.content@.len())
                &&& (room.content@[idx]@ matches ContentView::Lisp(src) ==> (
                r matches TickOutcome::Script(s) && s@ == src) && *final(data) == *old(data))
            }
        },
{
    let ridx = match data.project.room_index(&data.current_room) {
        Some(i) => i,
        None => {
            return TickOutcome::UnknownRoom;
        },
    };
    proof {
        data.project.lemma_spec_room(ridx as int);
    }
    let len = data.project.rooms[ridx].1.content.len();
    let idx = data.display.displayed_index;
    if idx >= len {
        return TickOutcome::Exhausted;
    }
    let mut push_ch: Option<char> = None;
    let mut out = TickOutcome::Revealed;
    match &data.project.rooms[ridx].1.content[idx] {
        crate::project::Content::Char(c) => {
            push_ch = Some(*c);
        },
        crate::project::Content::Lisp(s) => {
            out = TickOutcome::Script(s.clone());
        },
    }
    if let Some(c) = push_ch {
        let g = data.display.to_content_char(c);
        data.display.content.0.push(g);
        data.display.displayed_index = idx + 1;
    }
    out
}

/// Advances the reveal cursor by one, clamped to the current room's
/// content length.  The host calls this after evaluating a script block
/// a tick handed back, so the block's own cursor movement (a buffer
/// clear, say) is honored first and the advance applies to wherever the
/// evaluation left the cursor.  A current-room name the project does not
/// hold changes nothing.
pub fn advance_cursor(data: &mut EnvData)
    requires
        env_wf(*old(data)),
    ensures
        env_wf(*final(data)),
        same_except_display(*old(data), *final(data)),
        display_same_except_buffer(old(data).display, final(data).display),
        final(data).display.content@ == old(data).display.content@,
        !old(data).project.has_room(old(data).current_room@) ==> *final(data) == *old(data),
        old(data).project.has_room(old(data).current_room@) ==> {
            let len = old(data).project.spec_room(old(data).current_room@).content@.len();
            let idx = old(data).display.displayed_index as int;
            final(data).display.displayed_index == (if idx + 1 <= len {
                idx + 1
            } else {
                len as int
            })
        },
{
    let ridx = match data.project.room_index(&data.current_room) {
        Some(i) => i,
        None => {
            return ;
        },
    };
    proof {
        data.project.lemma_spec_room(ridx as int);
    }
    let len = data.project.rooms[ridx].1.content.len();
    let idx = data.display.displayed_index;
    if idx < len {
        data.display.displayed_index = idx + 1;
    } else {
        data.display.displayed_index = len;
    }
}

/// Activates the option at `index`: a room-navigation option moves the
/// current-room pointer to its target, so the next frame resets and runs
/// that room's pre-script; a callback option hands its script value back
/// for the interpreter to call.  An index past the list changes nothing.
pub fn option_activate(data: &mut EnvData, index: usize) -> (r: Option<ScriptArg>)
    requires
        env_wf(*old(data)),
    ensures
        env_wf(*final(data)),
        index >= old(data).options.options@.len() ==> r is None && *final(data) == *old(data),
        index < old(data).options.options@.len() ==> {
            &&& (old(data).options.options@[index as int].action matches OptionAction::Goto(room)
                ==> r is None && final(data).current_room@ == room@ && same_except_room(
                *old(data),
                *final(data),
            ))
            &&& (old(data).options.options@[index as int].action matches OptionAction::Script(cb)
                ==> (r matches Some(a) && a@ == cb@) && *final(data) == *old(data))
        },
{
    if index >= data.options.options.len() {
        return None;
    }
    match &data.options.options[index].action {
        OptionAction::Goto(room) => {
            let room = room.clone();
            data.current_room = room;
            None
        },
        OptionAction::Script(cb) => Some(cb.clone()),
    }
}

} // verus!
