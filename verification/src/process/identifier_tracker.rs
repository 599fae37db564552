//! The stack of lexical scopes: which names are declared at each nesting level.

use crate::process::walk::declare_all;
use crate::process::Scope;
use vstd::prelude::*;

verus! {

/// The names that the frame `frame` holds.
pub open spec fn frame_names(frame: Seq<String>) -> Set<Seq<char>> {
    Set::new(|name: Seq<char>| exists|i: int| 0 <= i < frame.len() && frame[i]@ == name)
}

/// Whether one of `frames` holds `name`.
pub open spec fn declared_in(frames: Seq<Set<Seq<char>>>, name: Seq<char>) -> bool {
    exists|level: int| 0 <= level < frames.len() && frames[level].contains(name)
}

/// `frames` with `name` in the top frame; without a frame there is nowhere to record
/// a name, and `frames` stays as it is.
pub open spec fn with_declaration(frames: Seq<Set<Seq<char>>>, name: Seq<char>) -> Seq<
    Set<Seq<char>>,
> {
    if frames.len() == 0 {
        frames
    } else {
        frames.update(frames.len() - 1, frames.last().insert(name))
    }
}

/// A stack of frames, innermost last, each holding the names declared in it. Its
/// value is the sequence of the frames, each as the set of its names.
#[derive(Debug)]
pub struct IdentifierTracker {
    identifiers: Vec<Vec<String>>,
}

impl View for IdentifierTracker {
    type V = Seq<Set<Seq<char>>>;

    closed spec fn view(&self) -> Seq<Set<Seq<char>>> {
        Seq::new(self.identifiers@.len(), |level: int| frame_names(self.identifiers@[level]@))
    }
}

impl IdentifierTracker {
    /// The tracker without a frame.
    pub fn new() -> (tracker: IdentifierTracker)
        ensures
            tracker@ == Seq::<Set<Seq<char>>>::empty(),
    {
        let tracker = IdentifierTracker { identifiers: Vec::new() };
        assert(tracker@ =~= Seq::<Set<Seq<char>>>::empty());
        tracker
    }

    /// The number of open frames.
    pub fn depth(&self) -> (depth: usize)
        ensures
            depth == self@.len(),
    {
        self.identifiers.len()
    }

    /// Opens a new, empty frame on top.
    pub fn enter_scope(&mut self)
        ensures
            final(self)@ == old(self)@.push(Set::empty()),
    {
        self.identifiers.push(Vec::new());
        assert(frame_names(Seq::<String>::empty()) =~= Set::<Seq<char>>::empty());
        assert(self@ =~= old(self)@.push(Set::empty()));
    }

    /// Closes the top frame; what was declared in it is forgotten.
    pub fn exit_scope(&mut self)
        requires
            old(self)@.len() > 0,
        ensures
            final(self)@ == old(self)@.drop_last(),
    {
        self.identifiers.pop();
        assert(self@ =~= old(self)@.drop_last());
    }

    /// Records `name` in the top frame.
    pub fn declare(&mut self, name: &str)
        ensures
            final(self)@ == with_declaration(old(self)@, name@),
    {
        let depth: usize = self.identifiers.len();
        if depth > 0 {
            let ghost frame = self.identifiers@[depth - 1]@;
            self.identifiers[depth - 1].push(name.to_owned());
            proof {
                let grown = self.identifiers@[depth - 1]@;
                assert(grown.len() == frame.len() + 1);
                assert forall|other: Seq<char>|
                    frame_names(grown).contains(other) == frame_names(frame).insert(
                        name@,
                    ).contains(other) by {
                    if frame_names(grown).contains(other) {
                        let i = choose|i: int| 0 <= i < grown.len() && grown[i]@ == other;
                        if i < frame.len() {
                            assert(frame[i]@ == other);
                        }
                    }
                    if frame_names(frame).contains(other) {
                        let i = choose|i: int| 0 <= i < frame.len() && frame[i]@ == other;
                        assert(grown[i]@ == other);
                    }
                    if other == name@ {
                        assert(grown[frame.len() as int]@ == other);
                    }
                }
                assert(frame_names(grown) =~= frame_names(frame).insert(name@));
                assert(self@ =~= with_declaration(old(self)@, name@));
            }
        }
    }

    /// Whether `name` is declared in an open frame.
    pub fn is_declared(&self, name: &str) -> (declared: bool)
        ensures
            declared == declared_in(self@, name@),
    {
        let wanted = name.to_owned();
        let mut level: usize = self.identifiers.len();
        while level > 0
            invariant
                level <= self.identifiers.len(),
                wanted@ == name@,
                forall|above: int|
                    level <= above < self.identifiers.len() ==> !(#[trigger] self@[above]).contains(
                        name@,
                    ),
            decreases level,
        {
            level = level - 1;
            let frame = &self.identifiers[level];
            let mut i: usize = 0;
            while i < frame.len()
                invariant
                    i <= frame.len(),
                    wanted@ == name@,
                    level < self.identifiers.len(),
                    frame@ == self.identifiers@[level as int]@,
                    forall|k: int| 0 <= k < i ==> frame@[k]@ != name@,
                decreases frame.len() - i,
            {
                if frame[i] == wanted {
                    assert(frame_names(frame@).contains(name@));
                    assert(self@[level as int].contains(name@));
                    return true;
                }
                i = i + 1;
            }
            assert(!self@[level as int].contains(name@));
        }
        false
    }
}

impl Default for IdentifierTracker {
    fn default() -> (tracker: IdentifierTracker)
        ensures
            tracker@ == Seq::<Set<Seq<char>>>::empty(),
    {
        IdentifierTracker::new()
    }
}

impl Scope for IdentifierTracker {
    open spec fn frames(state: Seq<Set<Seq<char>>>) -> nat {
        state.len()
    }

    open spec fn entered(state: Seq<Set<Seq<char>>>) -> Seq<Set<Seq<char>>> {
        state.push(Set::empty())
    }

    open spec fn exited(state: Seq<Set<Seq<char>>>) -> Seq<Set<Seq<char>>> {
        state.drop_last()
    }

    open spec fn declared(state: Seq<Set<Seq<char>>>, name: Seq<char>) -> Seq<Set<Seq<char>>> {
        with_declaration(state, name)
    }

    fn enter_scope(&mut self) {
        IdentifierTracker::enter_scope(self);
    }

    fn exit_scope(&mut self) {
        IdentifierTracker::exit_scope(self);
    }

    fn declare(&mut self, name: &str) {
        IdentifierTracker::declare(self, name);
    }
}

/// What is declared in a frame is gone when the frame is closed: to open a frame,
/// declare any names and close the frame again leaves the frames as they were.
pub proof fn lemma_closed_frame_leaves_nothing(frames: Seq<Set<Seq<char>>>, names: Seq<Seq<char>>)
    ensures
        IdentifierTracker::exited(
            declare_all::<IdentifierTracker>(IdentifierTracker::entered(frames), names),
        ) == frames,
    decreases names.len(),
{
    lemma_declarations_stay_on_top(frames.push(Set::empty()), names);
    assert(frames.push(Set::<Seq<char>>::empty()).drop_last() =~= frames);
}

/// Declarations change the top frame alone, and only by adding to it.
pub proof fn lemma_declarations_stay_on_top(frames: Seq<Set<Seq<char>>>, names: Seq<Seq<char>>)
    requires
        frames.len() > 0,
    ensures
        declare_all::<IdentifierTracker>(frames, names).len() == frames.len(),
        declare_all::<IdentifierTracker>(frames, names).drop_last() == frames.drop_last(),
        frames.last().subset_of(declare_all::<IdentifierTracker>(frames, names).last()),
    decreases names.len(),
{
    if names.len() > 0 {
        lemma_declarations_stay_on_top(frames, names.drop_last());
        let before = declare_all::<IdentifierTracker>(frames, names.drop_last());
        let after = declare_all::<IdentifierTracker>(frames, names);
        assert(after == with_declaration(before, names.last()));
        assert(after.drop_last() =~= before.drop_last());
    }
}

} // verus!
