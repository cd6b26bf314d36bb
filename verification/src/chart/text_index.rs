//! Numbers by texts, in the order of the texts.

use vstd::prelude::*;

use crate::text;

verus! {

/// Whether `a` comes before `b` in the dictionary: by the first character that differs,
/// and what is shorter comes first.
pub open spec fn below(a: Seq<char>, b: Seq<char>) -> bool
    decreases a.len(),
{
    if b.len() == 0 {
        false
    } else if a.len() == 0 {
        true
    } else if a[0] != b[0] {
        (a[0] as int) < (b[0] as int)
    } else {
        below(a.skip(1), b.skip(1))
    }
}

/// Of two texts that differ, exactly one comes before the other.
pub proof fn law_below_is_total(a: Seq<char>, b: Seq<char>)
    ensures
        a == b ==> !below(a, b),
        a != b ==> below(a, b) != below(b, a),
    decreases a.len(),
{
    if a.len() == 0 || b.len() == 0 {
        if a.len() == 0 && b.len() == 0 {
            assert(a =~= b);
        }
    } else if a[0] == b[0] {
        law_below_is_total(a.skip(1), b.skip(1));
        if a.skip(1) == b.skip(1) {
            assert(a =~= seq![a[0]] + a.skip(1));
            assert(b =~= seq![b[0]] + b.skip(1));
        }
    }
}

/// What comes before something comes before all that follows it.
pub proof fn law_below_is_transitive(a: Seq<char>, b: Seq<char>, c: Seq<char>)
    requires
        below(a, b),
        below(b, c),
    ensures
        below(a, c),
    decreases a.len(),
{
    if a.len() > 0 && b.len() > 0 && c.len() > 0 && a[0] == b[0] && b[0] == c[0] {
        law_below_is_transitive(a.skip(1), b.skip(1), c.skip(1));
    }
}

/// How two texts stand to each other.
#[derive(Debug, Clone, Copy, PartialEq, Eq, Structural)]
pub enum Standing {
    /// The first comes before the second.
    Before,
    /// They are the same.
    Same,
    /// The first comes behind the second.
    Behind,
}

/// How two texts stand to each other.
pub fn standing(a: &str, b: &str) -> (r: Standing)
    ensures
        r == (if a@ == b@ {
            Standing::Same
        } else if below(a@, b@) {
            Standing::Before
        } else {
            Standing::Behind
        }),
{
    let x = text::chars_of(a);
    let y = text::chars_of(b);
    let mut i: usize = 0;
    assert(x@.skip(0) =~= x@);
    assert(y@.skip(0) =~= y@);
    while i < x.len() && i < y.len()
        invariant
            x@ == a@,
            y@ == b@,
            i <= x@.len(),
            i <= y@.len(),
            forall|j: int| 0 <= j < i ==> x@[j] == y@[j],
            below(a@, b@) == below(x@.skip(i as int), y@.skip(i as int)),
        decreases x@.len() - i,
    {
        proof {
            assert(x@.skip(i as int).skip(1) =~= x@.skip(i + 1));
            assert(y@.skip(i as int).skip(1) =~= y@.skip(i + 1));
            assert(x@.skip(i as int)[0] == x@[i as int]);
            assert(y@.skip(i as int)[0] == y@[i as int]);
        }
        if x[i] != y[i] {
            assert(x@[i as int] != y@[i as int]);
            if x[i] < y[i] {
                return Standing::Before;
            } else {
                return Standing::Behind;
            }
        }
        i = i + 1;
    }
    if x.len() == y.len() {
        assert(x@ =~= y@);
        Standing::Same
    } else if i == x.len() {
        Standing::Before
    } else {
        Standing::Behind
    }
}

/// Numbers by texts.
#[derive(Debug)]
pub struct TextIndex {
    entries: Vec<(String, usize)>,
}

spec fn in_order(entries: Seq<(String, usize)>) -> bool {
    forall|i: int, j: int|
        0 <= i < j < entries.len() ==> below(#[trigger] entries[i].0@, #[trigger] entries[j].0@)
}

spec fn stands_for(entries: Seq<(String, usize)>, key: Seq<char>, i: int) -> bool {
    0 <= i < entries.len() && entries[i].0@ == key
}

impl View for TextIndex {
    type V = Map<Seq<char>, usize>;

    closed spec fn view(&self) -> Map<Seq<char>, usize> {
        Map::new(
            |key: Seq<char>| exists|i: int| stands_for(self.entries@, key, i),
            |key: Seq<char>| self.entries@[choose|i: int| stands_for(self.entries@, key, i)].1,
        )
    }
}

impl TextIndex {
    /// What holds of every index: its texts are in order.
    pub closed spec fn wf(self) -> bool {
        in_order(self.entries@)
    }

    /// The texts, in order.
    pub closed spec fn keys(self) -> Seq<Seq<char>> {
        self.entries@.map_values(|e: (String, usize)| e.0@)
    }

    proof fn lemma_at(self, i: int)
        requires
            self.wf(),
            0 <= i < self.entries@.len(),
        ensures
            self@.dom().contains(self.entries@[i].0@),
            self@[self.entries@[i].0@] == self.entries@[i].1,
    {
        let key = self.entries@[i].0@;
        assert(stands_for(self.entries@, key, i));
        let j = choose|j: int| stands_for(self.entries@, key, j);
        assert(stands_for(self.entries@, key, j));
        law_below_is_total(key, key);
        assert(i == j) by {
            if i < j {
                assert(below(self.entries@[i].0@, self.entries@[j].0@));
            }
            if j < i {
                assert(below(self.entries@[j].0@, self.entries@[i].0@));
            }
        }
    }

    proof fn lemma_absent(self, key: Seq<char>)
        requires
            forall|i: int| 0 <= i < self.entries@.len() ==> #[trigger] self.entries@[i].0@ != key,
        ensures
            !self@.dom().contains(key),
    {
        if exists|i: int| stands_for(self.entries@, key, i) {
            let i = choose|i: int| stands_for(self.entries@, key, i);
            assert(self.entries@[i].0@ != key);
        }
    }

    /// An index without texts.
    pub fn new() -> (r: TextIndex)
        ensures
            r.wf(),
            r@ == Map::<Seq<char>, usize>::empty(),
    {
        let r = TextIndex { entries: Vec::new() };
        assert forall|key: Seq<char>| !r@.dom().contains(key) by {
            r.lemma_absent(key);
        }
        assert(r@ =~= Map::<Seq<char>, usize>::empty());
        r
    }

    /// The place of a text, or the place where it would stand.
    fn search(&self, key: &str) -> (r: (usize, bool))
        requires
            self.wf(),
        ensures
            r.0 <= self.entries@.len(),
            r.1 ==> r.0 < self.entries@.len() && self.entries@[r.0 as int].0@ == key@,
            !r.1 ==> forall|i: int|
                0 <= i < self.entries@.len() ==> #[trigger] self.entries@[i].0@ != key@,
            !r.1 ==> forall|i: int| 0 <= i < r.0 ==> below(#[trigger] self.entries@[i].0@, key@),
            !r.1 ==> forall|i: int|
                r.0 <= i < self.entries@.len() ==> below(key@, #[trigger] self.entries@[i].0@),
    {
        let mut lo: usize = 0;
        let mut hi: usize = self.entries.len();
        while lo < hi
            invariant
                self.wf(),
                lo <= hi <= self.entries@.len(),
                forall|i: int| 0 <= i < lo ==> below(#[trigger] self.entries@[i].0@, key@),
                forall|i: int|
                    hi <= i < self.entries@.len() ==> below(key@, #[trigger] self.entries@[i].0@),
            decreases hi - lo,
        {
            let mid: usize = lo + (hi - lo) / 2;
            let ghost here = self.entries@[mid as int].0@;
            match standing(self.entries[mid].0.as_str(), key) {
                Standing::Same => {
                    return (mid, true);
                },
                Standing::Before => {
                    proof {
                        assert forall|i: int| 0 <= i < mid + 1 implies below(
                            #[trigger] self.entries@[i].0@,
                            key@,
                        ) by {
                            if i < mid {
                                assert(below(self.entries@[i].0@, self.entries@[mid as int].0@));
                                law_below_is_transitive(self.entries@[i].0@, here, key@);
                            }
                        }
                    }
                    lo = mid + 1;
                },
                Standing::Behind => {
                    proof {
                        law_below_is_total(here, key@);
                        assert forall|i: int| mid <= i < self.entries@.len() implies below(
                            key@,
                            #[trigger] self.entries@[i].0@,
                        ) by {
                            if i > mid {
                                assert(below(self.entries@[mid as int].0@, self.entries@[i].0@));
                                law_below_is_transitive(key@, here, self.entries@[i].0@);
                            }
                        }
                    }
                    hi = mid;
                },
            }
        }
        proof {
            law_below_is_total(key@, key@);
        }
        (lo, false)
    }

    /// The number of a text.
    pub fn find(&self, key: &str) -> (r: Option<usize>)
        requires
            self.wf(),
        ensures
            match r {
                Some(v) => self@.dom().contains(key@) && self@[key@] == v,
                None => !self@.dom().contains(key@),
            },
    {
        let place = self.search(key);
        if place.1 {
            proof {
                self.lemma_at(place.0 as int);
            }
            Some(self.entries[place.0].1)
        } else {
            proof {
                self.lemma_absent(key@);
            }
            None
        }
    }

    /// Gives a new text its number.
    pub fn insert(&mut self, key: &str, value: usize)
        requires
            old(self).wf(),
            !old(self)@.dom().contains(key@),
        ensures
            final(self).wf(),
            final(self)@ == old(self)@.insert(key@, value),
    {
        let ghost before = *self;
        let place = self.search(key);
        if place.1 {
            proof {
                self.lemma_at(place.0 as int);
            }
            return ;
        }
        let at: usize = place.0;
        self.entries.insert(at, (key.to_owned(), value));
        proof {
            let old_entries = before.entries@;
            let entries = self.entries@;
            assert(entries =~= old_entries.insert(at as int, entries[at as int]));
            assert forall|i: int, j: int| 0 <= i < j < entries.len() implies below(
                #[trigger] entries[i].0@,
                #[trigger] entries[j].0@,
            ) by {
                let a = if i < at {
                    i
                } else {
                    i - 1
                };
                let b = if j < at {
                    j
                } else {
                    j - 1
                };
                if i != at {
                    assert(entries[i] == old_entries[a]);
                }
                if j != at {
                    assert(entries[j] == old_entries[b]);
                }
                if i != at && j != at {
                    assert(below(old_entries[a].0@, old_entries[b].0@));
                }
            }
            self.lemma_at(at as int);
            assert forall|k: Seq<char>|
                self@.dom().contains(k) == (k == key@ || before@.dom().contains(k)) by {
                if exists|i: int| stands_for(entries, k, i) {
                    let i = choose|i: int| stands_for(entries, k, i);
                    if i < at {
                        assert(entries[i] == old_entries[i]);
                        before.lemma_at(i);
                    } else if i > at {
                        assert(entries[i] == old_entries[i - 1]);
                        before.lemma_at(i - 1);
                    }
                }
                if exists|i: int| stands_for(old_entries, k, i) {
                    let i = choose|i: int| stands_for(old_entries, k, i);
                    let j = if i < at {
                        i
                    } else {
                        i + 1
                    };
                    assert(entries[j] == old_entries[i]);
                    self.lemma_at(j);
                }
            }
            assert forall|k: Seq<char>| k != key@ && before@.dom().contains(k) implies
                #[trigger] self@[k] == before@[k] by {
                let i = choose|i: int| stands_for(old_entries, k, i);
                assert(stands_for(old_entries, k, i));
                before.lemma_at(i);
                let j = if i < at {
                    i
                } else {
                    i + 1
                };
                assert(entries[j] == old_entries[i]);
                self.lemma_at(j);
            }
            assert(self@ =~= before@.insert(key@, value));
        }
    }

    /// The numbers in the order of their texts.
    pub fn values(&self) -> (r: Vec<usize>)
        requires
            self.wf(),
        ensures
            r@.len() == self.keys().len(),
            forall|i: int, j: int|
                0 <= i < j < self.keys().len() ==> below(
                    #[trigger] self.keys()[i],
                    #[trigger] self.keys()[j],
                ),
            forall|i: int|
                0 <= i < r@.len() ==> #[trigger] r@[i] == self@[self.keys()[i]],
            forall|i: int|
                0 <= i < self.keys().len() ==> self@.dom().contains(#[trigger] self.keys()[i]),
            forall|key: Seq<char>| self@.dom().contains(key) ==> #[trigger] self.keys().contains(key),
    {
        let mut out: Vec<usize> = Vec::new();
        let mut i: usize = 0;
        while i < self.entries.len()
            invariant
                i <= self.entries@.len(),
                out@.len() == i,
                forall|j: int| 0 <= j < i ==> #[trigger] out@[j] == self.entries@[j].1,
            decreases self.entries@.len() - i,
        {
            out.push(self.entries[i].1);
            i = i + 1;
        }
        proof {
            let keys = self.keys();
            assert forall|a: int, b: int| 0 <= a < b < keys.len() implies below(
                #[trigger] keys[a],
                #[trigger] keys[b],
            ) by {
                assert(below(self.entries@[a].0@, self.entries@[b].0@));
            }
            assert forall|a: int| 0 <= a < out@.len() implies #[trigger] out@[a]
                == self@[self.keys()[a]] by {
                assert(self.keys()[a] == self.entries@[a].0@);
                self.lemma_at(a);
            }
            assert forall|a: int| 0 <= a < self.keys().len() implies self@.dom().contains(
                #[trigger] self.keys()[a],
            ) by {
                assert(self.keys()[a] == self.entries@[a].0@);
                self.lemma_at(a);
            }
            assert forall|key: Seq<char>|
                self@.dom().contains(key) implies #[trigger] keys.contains(key) by {
                let a = choose|a: int| stands_for(self.entries@, key, a);
                assert(stands_for(self.entries@, key, a));
                assert(keys[a] == key);
            }
        }
        out
    }
}

/// Texts are ordered character by character: what both begin with does not count, the first
/// that differ decide, and of two where one is the beginning of the other the shorter comes
/// first.
pub proof fn law_below_by_characters(
    both: Seq<char>,
    x: char,
    a: Seq<char>,
    y: char,
    b: Seq<char>,
)
    ensures
        below(both, both + seq![y] + b),
        !below(both + seq![y] + b, both),
        x != y ==> (below(both + seq![x] + a, both + seq![y] + b) <==> (x as int) < (y as int)),
    decreases both.len(),
{
    let p = both + seq![x] + a;
    let q = both + seq![y] + b;
    if both.len() == 0 {
        assert(p[0] == x && q[0] == y);
    } else {
        let rest = both.skip(1);
        assert(p.skip(1) =~= rest + seq![x] + a);
        assert(q.skip(1) =~= rest + seq![y] + b);
        assert(p[0] == both[0] && q[0] == both[0]);
        law_below_by_characters(rest, x, a, y, b);
    }
}

} // verus!
