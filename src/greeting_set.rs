//! Sets of greeting texts: two greetings with the same text are one.
use vstd::prelude::*;

verus! {

/// The set of texts held by `items`.
pub open spec fn texts_of(items: Seq<String>) -> Set<Seq<char>> {
    Set::new(|t: Seq<char>| exists|i: int| 0 <= i < items.len() && #[trigger] items[i]@ == t)
}

/// No text occurs twice in `items`.
pub open spec fn distinct_texts(items: Seq<String>) -> bool {
    forall|i: int, j: int|
        0 <= i < items.len() && 0 <= j < items.len() && i != j ==> #[trigger] items[i]@
            != #[trigger] items[j]@
}

/// A finite set of texts, each held once.
pub struct GreetingSet {
    items: Vec<String>,
}

impl View for GreetingSet {
    type V = Set<Seq<char>>;

    closed spec fn view(&self) -> Set<Seq<char>> {
        texts_of(self.items@)
    }
}

impl GreetingSet {
    /// Each text is held once.
    pub closed spec fn wf(&self) -> bool {
        distinct_texts(self.items@)
    }

    /// The empty set.
    pub fn new() -> (r: GreetingSet)
        ensures
            r.wf(),
            r@ == Set::<Seq<char>>::empty(),
    {
        let r = GreetingSet { items: Vec::new() };
        assert(r@ =~= Set::<Seq<char>>::empty());
        r
    }

    /// Whether `text` is in the set.
    pub fn contains(&self, text: &String) -> (r: bool)
        requires
            self.wf(),
        ensures
            r == self@.contains(text@),
    {
        let n = self.items.len();
        for i in 0..n
            invariant
                n == self.items@.len(),
                forall|j: int| 0 <= j < i ==> #[trigger] self.items@[j]@ != text@,
        {
            if self.items[i] == *text {
                assert(self.items@[i as int]@ == text@);
                return true;
            }
        }
        false
    }

    /// Adds `text`; a text already there is not added again.
    pub fn insert(&mut self, text: String)
        requires
            old(self).wf(),
        ensures
            final(self).wf(),
            final(self)@ == old(self)@.insert(text@),
    {
        if !self.contains(&text) {
            let ghost t = text@;
            self.items.push(text);
            assert(self.items@[self.items@.len() - 1]@ == t);
            assert forall|u: Seq<char>| #[trigger] old(self)@.contains(u) implies self@.contains(u) by {
                let k = choose|k: int| 0 <= k < old(self).items@.len() && #[trigger] old(self).items@[k]@ == u;
                assert(self.items@[k]@ == u);
            }
        }
        assert(self@ =~= old(self)@.insert(text@));
    }

    /// The texts of `self` that are not in `other`.
    pub fn difference(&self, other: &GreetingSet) -> (r: GreetingSet)
        requires
            self.wf(),
            other.wf(),
        ensures
            r.wf(),
            r@ == self@.difference(other@),
    {
        let mut r = GreetingSet::new();
        let n = self.items.len();
        for i in 0..n
            invariant
                n == self.items@.len(),
                other.wf(),
                r.wf(),
                r@ == texts_of(self.items@.take(i as int)).difference(other@),
        {
            proof {
                assert(texts_of(self.items@.take(i + 1)) =~= texts_of(self.items@.take(i as int)).insert(
                    self.items@[i as int]@,
                )) by {
                    assert forall|t: Seq<char>| #[trigger]
                        texts_of(self.items@.take(i + 1)).contains(t) implies texts_of(
                        self.items@.take(i as int),
                    ).insert(self.items@[i as int]@).contains(t) by {
                        let k = choose|k: int|
                            0 <= k < i + 1 && #[trigger] self.items@.take(i + 1)[k]@ == t;
                        if k < i {
                            assert(self.items@.take(i as int)[k]@ == t);
                        }
                    }
                    assert forall|t: Seq<char>| #[trigger]
                        texts_of(self.items@.take(i as int)).contains(t) implies texts_of(
                        self.items@.take(i + 1),
                    ).contains(t) by {
                        let k = choose|k: int|
                            0 <= k < i && #[trigger] self.items@.take(i as int)[k]@ == t;
                        assert(self.items@.take(i + 1)[k]@ == t);
                    }
                    assert(self.items@.take(i + 1)[i as int]@ == self.items@[i as int]@);
                }
            }
            if !other.contains(&self.items[i]) {
                r.insert(self.items[i].clone());
            }
            assert(r@ =~= texts_of(self.items@.take(i + 1)).difference(other@));
        }
        assert(self.items@.take(n as int) =~= self.items@);
        r
    }

    /// The texts of the set, each once, in no particular order.
    pub fn into_vec(self) -> (r: Vec<String>)
        requires
            self.wf(),
        ensures
            distinct_texts(r@),
            texts_of(r@) == self@,
    {
        self.items
    }
}

} // verus!
