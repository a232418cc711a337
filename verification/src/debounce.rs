//! The debouncer: the set of changed paths that wait for the next tick.

use vstd::prelude::*;
use crate::ignore::{texts, IgnoreMatcher};

verus! {

/// The length of the debounce window, in milliseconds: a tick fires at the
/// end of each.
pub const DEBOUNCE_WINDOW_MS: u64 = 500;

/// What the debounce loop reacts to.
#[derive(Debug, Clone, PartialEq, Eq)]
pub enum Event {
    /// The watcher saw this path created or modified.
    PathChanged(String),
    /// The debounce window ended.
    TickFired,
}

/// The pending set after one more change is seen: an ignored path and a path
/// that is already pending leave it as it is.
pub open spec fn observed(pending: Seq<Seq<char>>, ignored: bool, path: Seq<char>) -> Seq<
    Seq<char>,
> {
    if ignored || pending.contains(path) {
        pending
    } else {
        pending.push(path)
    }
}

/// The pending set after the same path is seen `times` times in a row.
pub open spec fn observed_repeatedly(
    pending: Seq<Seq<char>>,
    ignored: bool,
    path: Seq<char>,
    times: nat,
) -> Seq<Seq<char>>
    decreases times,
{
    if times == 0 {
        pending
    } else {
        observed(observed_repeatedly(pending, ignored, path, (times - 1) as nat), ignored, path)
    }
}

/// How often a path occurs in a batch.
pub open spec fn occurrences(batch: Seq<Seq<char>>, path: Seq<char>) -> nat
    decreases batch.len(),
{
    if batch.len() == 0 {
        0
    } else {
        occurrences(batch.drop_last(), path) + if batch.last() == path {
            1nat
        } else {
            0nat
        }
    }
}

/// A path that a sequence does not hold occurs in it zero times.
pub proof fn lemma_absent_never_occurs(batch: Seq<Seq<char>>, path: Seq<char>)
    requires
        !batch.contains(path),
    ensures
        occurrences(batch, path) == 0,
    decreases batch.len(),
{
    if batch.len() > 0 {
        assert(batch.last() == batch[batch.len() - 1]);
        assert forall|i: int| 0 <= i < batch.drop_last().len() implies batch.drop_last()[i]
            != path by {
            assert(batch.drop_last()[i] == batch[i]);
        }
        lemma_absent_never_occurs(batch.drop_last(), path);
    }
}

/// In a sequence without repetitions, a path that it holds occurs once.
pub proof fn lemma_present_occurs_once(batch: Seq<Seq<char>>, path: Seq<char>)
    requires
        batch.no_duplicates(),
        batch.contains(path),
    ensures
        occurrences(batch, path) == 1,
    decreases batch.len(),
{
    let last = batch.len() - 1;
    let front = batch.drop_last();
    assert(batch.last() == batch[last]);
    assert forall|i: int, j: int| 0 <= i < front.len() && 0 <= j < front.len() && i != j implies front[i] != front[j] by {
        assert(front[i] == batch[i] && front[j] == batch[j]);
    }
    if batch.last() == path {
        assert forall|i: int| 0 <= i < front.len() implies front[i] != path by {
            assert(front[i] == batch[i]);
        }
        lemma_absent_never_occurs(front, path);
    } else {
        let k = choose|k: int| 0 <= k < batch.len() && batch[k] == path;
        assert(front[k] == path);
        lemma_present_occurs_once(front, path);
    }
}

/// Inclusion: a change that is seen before the tick is in the tick's batch
/// unless it is ignored, and it pushes out nothing that was pending before.
pub proof fn lemma_observed_is_included(
    pending: Seq<Seq<char>>,
    ignored: bool,
    path: Seq<char>,
    earlier: Seq<char>,
)
    ensures
        !ignored ==> observed(pending, ignored, path).contains(path),
        pending.contains(earlier) ==> observed(pending, ignored, path).contains(earlier),
{
    let after = observed(pending, ignored, path);
    if !ignored && !pending.contains(path) {
        assert(after[pending.len() as int] == path);
    }
    if pending.contains(earlier) {
        let k = choose|k: int| 0 <= k < pending.len() && pending[k] == earlier;
        assert(after[k] == earlier);
    }
}

/// Coalescing: any number of changes to one path within a window, at least
/// one, leave the pending set as a single change does; if the path is not
/// ignored, the batch of the next tick holds it exactly once.
pub proof fn lemma_burst_coalesces(
    pending: Seq<Seq<char>>,
    ignored: bool,
    path: Seq<char>,
    times: nat,
)
    requires
        pending.no_duplicates(),
        times >= 1,
    ensures
        observed_repeatedly(pending, ignored, path, times) == observed(pending, ignored, path),
        observed(pending, ignored, path).no_duplicates(),
        !ignored ==> occurrences(observed_repeatedly(pending, ignored, path, times), path) == 1,
    decreases times,
{
    let once = observed(pending, ignored, path);
    assert(observed_repeatedly(pending, ignored, path, 0) == pending);
    if times > 1 {
        lemma_burst_coalesces(pending, ignored, path, (times - 1) as nat);
    }
    if !ignored {
        if !pending.contains(path) {
            assert(once[pending.len() as int] == path);
        }
        assert(once.contains(path));
        assert(observed(once, ignored, path) == once);
        lemma_present_occurs_once(once, path);
    }
}

/// The changed paths that wait for the next tick, with the ignore rules they
/// are held to. Owned by one loop, which hands it from step to step.
pub struct Debouncer {
    matcher: IgnoreMatcher,
    pending: Vec<String>,
}

impl Debouncer {
    /// The pending paths, in the order in which they were first seen.
    pub closed spec fn pending(&self) -> Seq<Seq<char>> {
        texts(self.pending@)
    }

    /// The ignore rules that the debouncer holds paths to.
    pub closed spec fn matcher(&self) -> IgnoreMatcher {
        self.matcher
    }

    /// The invariant of every debouncer: its pending paths are clean.
    #[verifier::type_invariant]
    spec fn well_formed(&self) -> bool {
        &&& texts(self.pending@).no_duplicates()
        &&& forall|i: int|
            0 <= i < self.pending@.len() ==> !self.matcher.ignores(#[trigger] self.pending@[i]@)
    }

    /// No path is pending twice, and no pending path is ignored.
    pub open spec fn is_clean(&self) -> bool {
        &&& self.pending().no_duplicates()
        &&& forall|i: int|
            0 <= i < self.pending().len() ==> !self.matcher().ignores(#[trigger] self.pending()[i])
    }

    /// A debouncer with nothing pending.
    pub fn new(matcher: IgnoreMatcher) -> (r: Debouncer)
        ensures
            r.matcher() == matcher,
            r.pending() == Seq::<Seq<char>>::empty(),
    {
        let pending: Vec<String> = Vec::new();
        assert(texts(pending@) =~= Seq::<Seq<char>>::empty());
        Debouncer { matcher, pending }
    }

    /// Whether the path waits for the next tick.
    pub fn is_pending(&self, path: &str) -> (r: bool)
        ensures
            r == self.pending().contains(path@),
    {
        let wanted = path.to_owned();
        let mut i: usize = 0;
        while i < self.pending.len()
            invariant
                i <= self.pending.len(),
                wanted@ == path@,
                forall|k: int| 0 <= k < i ==> self.pending()[k] != path@,
            decreases self.pending.len() - i,
        {
            if self.pending[i] == wanted {
                assert(self.pending()[i as int] == path@);
                return true;
            }
            i += 1;
        }
        false
    }

    /// How many paths wait for the next tick. Whatever happened before, the
    /// pending paths are clean.
    pub fn pending_count(&self) -> (r: usize)
        ensures
            r == self.pending().len(),
            self.is_clean(),
    {
        proof {
            use_type_invariant(self);
            assert forall|i: int| 0 <= i < self.pending().len() implies !self.matcher().ignores(
                #[trigger] self.pending()[i],
            ) by {
                assert(self.pending()[i] == self.pending@[i]@);
            }
        }
        self.pending.len()
    }

    /// Takes note of a changed path: it becomes pending unless it is ignored
    /// or pending already.
    pub fn observe(self, path: String) -> (r: Debouncer)
        ensures
            r.matcher() == self.matcher(),
            r.pending() == observed(self.pending(), self.matcher().ignores(path@), path@),
    {
        proof {
            use_type_invariant(&self);
        }
        if self.matcher.matches(path.as_str()) {
            return self;
        }
        if self.is_pending(path.as_str()) {
            return self;
        }
        let Debouncer { matcher, pending } = self;
        let mut pending = pending;
        let ghost before = texts(pending@);
        pending.push(path);
        assert(texts(pending@) =~= before.push(path@));
        Debouncer { matcher, pending }
    }

    /// Ends the window: hands out every pending path, once each and none of
    /// them ignored, and starts the next window with nothing pending.
    pub fn flush(self) -> (r: (Debouncer, Vec<String>))
        ensures
            r.0.matcher() == self.matcher(),
            r.0.pending() == Seq::<Seq<char>>::empty(),
            texts(r.1@) == self.pending(),
            texts(r.1@).no_duplicates(),
            forall|i: int| 0 <= i < r.1@.len() ==> !self.matcher().ignores(#[trigger] r.1@[i]@),
    {
        proof {
            use_type_invariant(&self);
        }
        let Debouncer { matcher, pending } = self;
        let fresh: Vec<String> = Vec::new();
        assert(texts(fresh@) =~= Seq::<Seq<char>>::empty());
        (Debouncer { matcher, pending: fresh }, pending)
    }

    /// One step of the debounce loop: a changed path is noted and nothing is
    /// handed out; a tick hands out all that is pending.
    pub fn step(self, event: Event) -> (r: (Debouncer, Vec<String>))
        ensures
            r.0.matcher() == self.matcher(),
            match event {
                Event::PathChanged(path) => {
                    &&& r.1@.len() == 0
                    &&& r.0.pending() == observed(
                        self.pending(),
                        self.matcher().ignores(path@),
                        path@,
                    )
                },
                Event::TickFired => {
                    &&& texts(r.1@) == self.pending()
                    &&& r.0.pending() == Seq::<Seq<char>>::empty()
                },
            },
            texts(r.1@).no_duplicates(),
            forall|i: int| 0 <= i < r.1@.len() ==> !self.matcher().ignores(#[trigger] r.1@[i]@),
    {
        match event {
            Event::PathChanged(path) => (self.observe(path), Vec::new()),
            Event::TickFired => self.flush(),
        }
    }
}

} // verus!
