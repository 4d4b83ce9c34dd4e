//! The story model: a project is a mapping from room names to rooms, and a
//! room is a pre-script, an ordered content stream and a post-script.
//! Rooms are immutable once parsed; the content stream keeps exactly the
//! authored order.

use vstd::prelude::*;

use crate::parser::Metadata;

verus! {

/// One unit of a room's content stream: either one literal character, to
/// be revealed as one styled glyph, or the source text of an embedded
/// script block, to be evaluated in place.
#[derive(Clone, Debug)]
pub enum Content {
    Char(char),
    Lisp(String),
}

/// The mathematical value of a content unit.
pub enum ContentView {
    Char(char),
    Lisp(Seq<char>),
}

impl View for Content {
    type V = ContentView;

    open spec fn view(&self) -> ContentView {
        match self {
            Content::Char(c) => ContentView::Char(*c),
            Content::Lisp(s) => ContentView::Lisp(s@),
        }
    }
}

/// One scene of the story: a pre-script run once on entry, the content
/// stream revealed unit by unit, and a post-script run on demand.
#[derive(Clone, Debug)]
pub struct Room {
    pub pre: String,
    pub post: String,
    pub content: Vec<Content>,
}

/// A loaded story: its rooms keyed by name, and its metadata.
#[derive(Clone, Debug)]
pub struct Project {
    pub rooms: Vec<(String, Room)>,
    pub author: String,
    pub name: String,
    pub meta: Metadata,
}

impl Project {
    /// Room names are unique, so a name identifies at most one room.
    pub open spec fn wf(&self) -> bool {
        forall|i: int, j: int|
            0 <= i < j < self.rooms@.len() ==> self.rooms@[i].0@ != self.rooms@[j].0@
    }

    /// Whether the project holds a room of this name.
    pub open spec fn has_room(&self, name: Seq<char>) -> bool {
        exists|i: int| 0 <= i < self.rooms@.len() && self.rooms@[i].0@ == name
    }

    /// The room stored under `name`; meaningful when the project has one
    /// and names are unique.
    pub open spec fn spec_room(&self, name: Seq<char>) -> Room {
        self.rooms@[choose|i: int|
            0 <= i < self.rooms@.len() && self.rooms@[i].0@ == name].1
    }

    /// Under uniqueness of names, the room at index `i` is the room stored
    /// under its name.
    pub proof fn lemma_spec_room(&self, i: int)
        requires
            self.wf(),
            0 <= i < self.rooms@.len(),
        ensures
            self.spec_room(self.rooms@[i].0@) == self.rooms@[i].1,
    {
        let name = self.rooms@[i].0@;
        assert(0 <= i < self.rooms@.len() && self.rooms@[i].0@ == name);
        let j = choose|j: int| 0 <= j < self.rooms@.len() && self.rooms@[j].0@ == name;
        if j != i {
            if j < i {
                assert(self.rooms@[j].0@ != self.rooms@[i].0@);
            } else {
                assert(self.rooms@[i].0@ != self.rooms@[j].0@);
            }
        }
    }

    /// An empty project with the given metadata fields left blank.
    pub fn new() -> (r: Project)
        ensures
            r.rooms@.len() == 0,
            r.author@.len() == 0,
            r.name@.len() == 0,
            r.wf(),
    {
        Project {
            rooms: Vec::new(),
            author: String::new(),
            name: String::new(),
            meta: Metadata::new(),
        }
    }

    /// The position of the room called `name`, if the project has one.
    pub fn room_index(&self, name: &String) -> (r: Option<usize>)
        ensures
            (match r {
                Some(i) => i < self.rooms@.len() && self.rooms@[i as int].0@ == name@,
                None => !self.has_room(name@),
            }),
    {
        let mut i: usize = 0;
        while i < self.rooms.len()
            invariant
                i <= self.rooms@.len(),
                forall|j: int| 0 <= j < i ==> self.rooms@[j].0@ != name@,
            decreases self.rooms@.len() - i,
        {
            if self.rooms[i].0 == *name {
                return Some(i);
            }
            i = i + 1;
        }
        None
    }

    /// Adds a room under `name`; a room already stored under that name is
    /// replaced, as a later file of the same name overrides an earlier one.
    pub fn insert_room(&mut self, name: String, room: Room)
        requires
            old(self).wf(),
        ensures
            final(self).wf(),
            final(self).has_room(name@),
            final(self).author == old(self).author,
            final(self).name == old(self).name,
            final(self).meta == old(self).meta,
            // every room name present before is still present, and no name
            // but `name` appears anew
            forall|n: Seq<char>| old(self).has_room(n) ==> #[trigger] final(self).has_room(n),
            forall|n: Seq<char>|
                #[trigger] final(self).has_room(n) ==> old(self).has_room(n) || n == name@,
            // the room stored under `name` is now `room`
            final(self).spec_room(name@) == room,
            // rooms under other names are untouched
            forall|n: Seq<char>|
                old(self).has_room(n) && n != name@ ==> #[trigger] final(self).spec_room(n)
                    == old(self).spec_room(n),
    {
        let ghost before = *self;
        let idx = self.room_index(&name);
        match idx {
            Some(i) => {
                self.rooms[i] = (name, room);
                proof {
                    let rs = self.rooms@;
                    assert(rs[i as int].0@ == before.rooms@[i as int].0@);
                    assert forall|a: int, b: int| 0 <= a < b < rs.len() implies rs[a].0@
                        != rs[b].0@ by {
                        assert(rs[a].0@ == before.rooms@[a].0@);
                        assert(rs[b].0@ == before.rooms@[b].0@);
                    }
                    self.lemma_spec_room(i as int);
                    assert forall|n: Seq<char>|
                        before.has_room(n) && n != name@ implies #[trigger] self.spec_room(n)
                        == before.spec_room(n) by {
                        let a = choose|a: int|
                            0 <= a < before.rooms@.len() && before.rooms@[a].0@ == n;
                        assert(rs[a] == before.rooms@[a]);
                        self.lemma_spec_room(a);
                        before.lemma_spec_room(a);
                    }
                    assert forall|n: Seq<char>| #[trigger] self.has_room(n) implies
                        before.has_room(n) || n == name@ by {
                        let a = choose|a: int| 0 <= a < rs.len() && rs[a].0@ == n;
                        if a != i {
                            assert(before.rooms@[a].0@ == n);
                        }
                    }
                    assert forall|n: Seq<char>| before.has_room(n) implies #[trigger] self
                        .has_room(n) by {
                        let a = choose|a: int|
                            0 <= a < before.rooms@.len() && before.rooms@[a].0@ == n;
                        if a != i {
                            assert(rs[a].0@ == n);
                        } else {
                            assert(rs[i as int].0@ == n);
                        }
                    }
                }
            },
            None => {
                self.rooms.push((name, room));
                proof {
                    let rs = self.rooms@;
                    let last = rs.len() - 1;
                    assert forall|a: int, b: int| 0 <= a < b < rs.len() implies rs[a].0@
                        != rs[b].0@ by {
                        if b < last {
                            assert(rs[a] == before.rooms@[a]);
                            assert(rs[b] == before.rooms@[b]);
                        } else {
                            assert(rs[a] == before.rooms@[a]);
                            assert(!before.has_room(rs[last].0@));
                        }
                    }
                    assert(rs[last].0@ == name@);
                    self.lemma_spec_room(last);
                    assert forall|n: Seq<char>|
                        before.has_room(n) && n != name@ implies #[trigger] self.spec_room(n)
                        == before.spec_room(n) by {
                        let a = choose|a: int|
                            0 <= a < before.rooms@.len() && before.rooms@[a].0@ == n;
                        assert(rs[a] == before.rooms@[a]);
                        self.lemma_spec_room(a);
                        before.lemma_spec_room(a);
                    }
                    assert forall|n: Seq<char>| #[trigger] self.has_room(n) implies
                        before.has_room(n) || n == name@ by {
                        let a = choose|a: int| 0 <= a < rs.len() && rs[a].0@ == n;
                        if a < last {
                            assert(before.rooms@[a].0@ == n);
                        }
                    }
                    assert forall|n: Seq<char>| before.has_room(n) implies #[trigger] self
                        .has_room(n) by {
                        let a = choose|a: int|
                            0 <= a < before.rooms@.len() && before.rooms@[a].0@ == n;
                        assert(rs[a].0@ == n);
                    }
                }
            },
        }
    }
}

} // verus!
