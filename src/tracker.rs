//! The greetings reported last time, and what changed since.
use vstd::prelude::*;
use crate::greeting_set::GreetingSet;

verus! {

/// What an update reports: the texts of the stored snapshot that are not in
/// the new one.
pub open spec fn update_delta(previous: Set<Seq<char>>, snapshot: Set<Seq<char>>) -> Set<Seq<char>> {
    previous.difference(snapshot)
}

/// What an update stores: the new snapshot, whole.
pub open spec fn update_state(previous: Set<Seq<char>>, snapshot: Set<Seq<char>>) -> Set<Seq<char>> {
    snapshot
}

/// The snapshot of greetings taken at the last report.
pub struct GreetPreviousGreetings(GreetingSet);

impl View for GreetPreviousGreetings {
    type V = Set<Seq<char>>;

    closed spec fn view(&self) -> Set<Seq<char>> {
        self.0@
    }
}

impl GreetPreviousGreetings {
    pub closed spec fn wf(&self) -> bool {
        self.0.wf()
    }

    /// A tracker that has seen nothing yet.
    pub fn new() -> (r: GreetPreviousGreetings)
        ensures
            r.wf(),
            r@ == Set::<Seq<char>>::empty(),
    {
        GreetPreviousGreetings(GreetingSet::new())
    }

    /// The stored snapshot.
    pub fn previous(&self) -> (r: &GreetingSet)
        requires
            self.wf(),
        ensures
            r.wf(),
            r@ == self@,
    {
        &self.0
    }

    /// Stores `snapshot` in place of the previous one and returns the texts
    /// of the previous snapshot that `snapshot` lacks.
    ///
    /// Note the order of the difference: what is reported are the greetings
    /// that went away since the last update, not those that appeared.
    pub fn update(&mut self, snapshot: GreetingSet) -> (r: GreetingSet)
        requires
            old(self).wf(),
            snapshot.wf(),
        ensures
            final(self).wf(),
            final(self)@ == update_state(old(self)@, snapshot@),
            r.wf(),
            r@ == update_delta(old(self)@, snapshot@),
    {
        let delta = self.0.difference(&snapshot);
        self.0 = snapshot;
        delta
    }
}

/// A second update with the snapshot that the first one stored reports
/// nothing.
pub proof fn lemma_update_twice_reports_nothing(previous: Set<Seq<char>>, snapshot: Set<Seq<char>>)
    ensures
        update_delta(update_state(previous, snapshot), snapshot) == Set::<Seq<char>>::empty(),
{
    assert(update_delta(update_state(previous, snapshot), snapshot) =~= Set::<Seq<char>>::empty());
}

} // verus!
