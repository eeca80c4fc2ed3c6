//! The ordered, named collection of stored display layouts.
//!
//! Order is meaningful: it drives the listing and is the only priority
//! concept the system has.  Ids are unique; adding under an existing id
//! replaces the old entry and moves it to the end.  Reading the
//! collection from its file and writing it back happen outside this
//! crate.

use vstd::prelude::*;

use crate::display::DisplayLayout;

verus! {

/// One stored layout: a unique string id, a display name, an optional
/// emoji, a hidden flag that excludes it from default listings, and the
/// topology snapshot itself.
#[derive(Debug, Clone, PartialEq)]
pub struct NamedLayout {
    pub id: String,
    pub name: String,
    pub emoji: Option<String>,
    pub hidden: bool,
    pub layout: DisplayLayout,
}

/// Keeps every entry whose id differs from the one given.
pub open spec fn keeps_id(id: Seq<char>) -> spec_fn(NamedLayout) -> bool {
    |l: NamedLayout| l.id@ != id
}

/// The sequence with every entry of the given id removed, order kept.
pub open spec fn remove_id(s: Seq<NamedLayout>, id: Seq<char>) -> Seq<NamedLayout> {
    s.filter(keeps_id(id))
}

/// The position of the first entry with the given id, if any.
pub open spec fn find_id_index(s: Seq<NamedLayout>, id: Seq<char>) -> Option<int>
    decreases s.len(),
{
    if s.len() == 0 {
        None
    } else if s[0].id@ == id {
        Some(0)
    } else {
        match find_id_index(s.skip(1), id) {
            Some(i) => Some(i + 1),
            None => None,
        }
    }
}

/// No two entries share an id.
pub open spec fn ids_unique(s: Seq<NamedLayout>) -> bool {
    forall|i: int, j: int|
        #![trigger s[i], s[j]]
        0 <= i < j < s.len() ==> s[i].id@ != s[j].id@
}

pub proof fn lemma_find_id_index_at(s: Seq<NamedLayout>, id: Seq<char>, i: int)
    requires
        0 <= i < s.len(),
        s[i].id@ == id,
        forall|j: int| 0 <= j < i ==> (#[trigger] s[j]).id@ != id,
    ensures
        find_id_index(s, id) == Some(i),
    decreases i,
{
    if i > 0 {
        lemma_find_id_index_at(s.skip(1), id, i - 1);
    }
}

pub proof fn lemma_find_id_index_none(s: Seq<NamedLayout>, id: Seq<char>)
    requires
        forall|j: int| 0 <= j < s.len() ==> (#[trigger] s[j]).id@ != id,
    ensures
        find_id_index(s, id) is None,
    decreases s.len(),
{
    if s.len() > 0 {
        lemma_find_id_index_none(s.skip(1), id);
    }
}

/// The ordered collection of stored layouts.
#[derive(Debug, Clone, PartialEq)]
pub struct Layouts(Vec<NamedLayout>);

impl View for Layouts {
    type V = Seq<NamedLayout>;

    closed spec fn view(&self) -> Seq<NamedLayout> {
        self.0@
    }
}

impl Layouts {
    pub fn new() -> (r: Layouts)
        ensures
            r@.len() == 0,
    {
        Layouts(Vec::new())
    }

    /// Assembles a collection from entries already in order, as the
    /// store's reader does after parsing the persisted document.
    pub fn from_entries(entries: Vec<NamedLayout>) -> (r: Layouts)
        ensures
            r@ == entries@,
    {
        Layouts(entries)
    }

    pub fn len(&self) -> (r: usize)
        ensures
            r == self@.len(),
    {
        self.0.len()
    }

    pub fn is_empty(&self) -> (r: bool)
        ensures
            r == (self@.len() == 0),
    {
        self.0.is_empty()
    }

    /// The entry at a position of the listing order.
    pub fn index(&self, index: usize) -> (r: &NamedLayout)
        requires
            index < self@.len(),
        ensures
            *r == self@[index as int],
    {
        &self.0[index]
    }

    /// Exchanges the entries at two positions of the listing order.
    pub fn swap(&mut self, a: usize, b: usize)
        requires
            a < old(self)@.len(),
            b < old(self)@.len(),
        ensures
            final(self)@ == old(self)@.update(a as int, old(self)@[b as int]).update(
                b as int,
                old(self)@[a as int],
            ),
    {
        let ghost s0 = self.0@;
        if a == b {
            proof {
                assert(s0.update(a as int, s0[b as int]).update(b as int, s0[a as int]) =~= s0);
            }
            return;
        }
        let (lo, hi) = if a < b {
            (a, b)
        } else {
            (b, a)
        };
        let x_hi = self.0.remove(hi);
        let x_lo = self.0.remove(lo);
        self.0.insert(lo, x_hi);
        self.0.insert(hi, x_lo);
        proof {
            assert(self.0@ =~= s0.update(a as int, s0[b as int]).update(b as int, s0[a as int]));
        }
    }

    /// Appends a layout, first removing any entry that already carries
    /// its id: replace-and-move-to-end.
    pub fn add_layout(&mut self, layout: NamedLayout)
        ensures
            final(self)@ == remove_id(old(self)@, layout.id@).push(layout),
    {
        let ghost s0 = self.0@;
        let ghost id = layout.id@;
        let mut i: usize = 0;
        let ghost j: int = 0;
        while i < self.0.len()
            invariant
                id == layout.id@,
                0 <= j <= s0.len(),
                i == remove_id(s0.take(j), id).len(),
                self.0@ =~= remove_id(s0.take(j), id) + s0.skip(j),
                i <= self.0@.len(),
                self.0@.len() == i + s0.len() - j,
            decreases s0.len() - j,
        {
            let ghost j_old = j;
            proof {
                assert(self.0@[i as int] == s0.skip(j)[0]);
                assert(s0.skip(j)[0] == s0[j]);
                assert(s0.take(j + 1) =~= s0.take(j).push(s0[j]));
                lemma_remove_id_push(s0.take(j_old), s0[j_old], id);
            }
            if self.0[i].id == layout.id {
                proof {
                    assert(self.0@[i as int] == s0[j_old]);
                    assert(self.0@[i as int].id@ == layout.id@);
                    assert(s0[j_old].id@ == id);
                }
                self.0.remove(i);
                proof {
                    j = j_old + 1;
                    assert(remove_id(s0.take(j), id) == remove_id(s0.take(j_old), id));
                    assert(s0.skip(j_old).skip(1) =~= s0.skip(j));
                    assert(self.0@ =~= remove_id(s0.take(j), id) + s0.skip(j));
                }
            } else {
                proof {
                    assert(self.0@[i as int] == s0[j_old]);
                    assert(self.0@[i as int].id@ != layout.id@);
                    assert(s0[j_old].id@ != id);
                }
                i += 1;
                proof {
                    j = j_old + 1;
                    assert(remove_id(s0.take(j), id) == remove_id(s0.take(j_old), id).push(
                        s0[j_old],
                    ));
                    assert(s0.skip(j_old).skip(1) =~= s0.skip(j));
                    assert(s0.skip(j_old)[0] == s0[j_old]);
                    assert(self.0@ =~= remove_id(s0.take(j), id) + s0.skip(j));
                }
            }
        }
        proof {
            assert(s0.take(j) =~= s0);
            assert(self.0@ =~= remove_id(s0, id));
        }
        self.0.push(layout);
    }

    /// Removes and returns the first entry with the given id, if any.
    pub fn remove_layout(&mut self, id: &str) -> (r: Option<NamedLayout>)
        ensures
            match find_id_index(old(self)@, id@) {
                Some(i) => {
                    &&& r == Some(old(self)@[i])
                    &&& final(self)@ == old(self)@.remove(i)
                },
                None => {
                    &&& r is None
                    &&& final(self)@ == old(self)@
                },
            },
    {
        let id_owned = id.to_owned();
        let n = self.0.len();
        let mut i: usize = 0;
        while i < n
            invariant
                self.0@ == old(self).0@,
                n == self.0@.len(),
                0 <= i <= n,
                id_owned@ == id@,
                forall|j: int| 0 <= j < i ==> (#[trigger] self.0@[j]).id@ != id@,
            decreases n - i,
        {
            if self.0[i].id == id_owned {
                proof {
                    lemma_find_id_index_at(self.0@, id@, i as int);
                }
                return Some(self.0.remove(i));
            }
            i += 1;
        }
        proof {
            lemma_find_id_index_none(self.0@, id@);
        }
        None
    }

    /// The first entry with the given id, if any.
    pub fn get_layout(&self, id: &str) -> (r: Option<&NamedLayout>)
        ensures
            match find_id_index(self@, id@) {
                Some(i) => r == Some(&self@[i]),
                None => r is None,
            },
    {
        let id_owned = id.to_owned();
        let n = self.0.len();
        let mut i: usize = 0;
        while i < n
            invariant
                n == self.0@.len(),
                0 <= i <= n,
                id_owned@ == id@,
                forall|j: int| 0 <= j < i ==> (#[trigger] self.0@[j]).id@ != id@,
            decreases n - i,
        {
            if self.0[i].id == id_owned {
                proof {
                    lemma_find_id_index_at(self.0@, id@, i as int);
                }
                return Some(&self.0[i]);
            }
            i += 1;
        }
        proof {
            lemma_find_id_index_none(self.0@, id@);
        }
        None
    }

    /// Sets or clears the hidden flag of the first entry with the given
    /// id; reports whether one was found.
    pub fn set_hidden(&mut self, id: &str, hidden: bool) -> (r: bool)
        ensures
            match find_id_index(old(self)@, id@) {
                Some(i) => {
                    &&& r == true
                    &&& final(self)@ == old(self)@.update(
                        i,
                        NamedLayout { hidden, ..old(self)@[i] },
                    )
                },
                None => {
                    &&& r == false
                    &&& final(self)@ == old(self)@
                },
            },
    {
        let id_owned = id.to_owned();
        let n = self.0.len();
        let mut i: usize = 0;
        while i < n
            invariant
                self.0@ == old(self).0@,
                n == self.0@.len(),
                0 <= i <= n,
                id_owned@ == id@,
                forall|j: int| 0 <= j < i ==> (#[trigger] self.0@[j]).id@ != id@,
            decreases n - i,
        {
            if self.0[i].id == id_owned {
                proof {
                    lemma_find_id_index_at(self.0@, id@, i as int);
                }
                let ghost s0 = self.0@;
                let mut entry = self.0.remove(i);
                entry.hidden = hidden;
                self.0.insert(i, entry);
                proof {
                    assert(self.0@ =~= s0.update(i as int, NamedLayout { hidden, ..s0[i as int] }));
                }
                return true;
            }
            i += 1;
        }
        proof {
            lemma_find_id_index_none(self.0@, id@);
        }
        false
    }
}

/// Extending a scanned prefix by one entry extends its id-free
/// subsequence exactly when the entry's id differs.
pub proof fn lemma_remove_id_push(s: Seq<NamedLayout>, l: NamedLayout, id: Seq<char>)
    ensures
        l.id@ != id ==> remove_id(s.push(l), id) == remove_id(s, id).push(l),
        l.id@ == id ==> remove_id(s.push(l), id) == remove_id(s, id),
{
    reveal_with_fuel(Seq::<NamedLayout>::filter, 2);
    assert(s.push(l).drop_last() =~= s);
    assert(s.push(l).last() == l);
    assert(keeps_id(id)(l) == (l.id@ != id));
}

/// No entry of the id-free subsequence carries the removed id, and every
/// other entry survives in order.
pub proof fn lemma_remove_id_removes(s: Seq<NamedLayout>, id: Seq<char>)
    ensures
        forall|i: int|
            0 <= i < remove_id(s, id).len() ==> (#[trigger] remove_id(s, id)[i]).id@ != id,
        remove_id(s, id).len() <= s.len(),
    decreases s.len(),
{
    reveal_with_fuel(Seq::<NamedLayout>::filter, 2);
    if s.len() > 0 {
        lemma_remove_id_removes(s.drop_last(), id);
        assert(s =~= s.drop_last().push(s.last()));
        lemma_remove_id_push(s.drop_last(), s.last(), id);
    }
}

/// Removing an id a second time changes nothing more.
pub proof fn lemma_remove_id_idempotent(s: Seq<NamedLayout>, id: Seq<char>)
    ensures
        remove_id(remove_id(s, id), id) == remove_id(s, id),
    decreases s.len(),
{
    if s.len() > 0 {
        lemma_remove_id_idempotent(s.drop_last(), id);
        assert(s =~= s.drop_last().push(s.last()));
        lemma_remove_id_push(s.drop_last(), s.last(), id);
        if s.last().id@ != id {
            lemma_remove_id_push(remove_id(s.drop_last(), id), s.last(), id);
        }
    }
}

/// Adding twice under one id leaves exactly one entry with that id: the
/// newer content, positioned last; the end state is as if only the
/// second add had replaced the id.
pub proof fn lemma_add_layout_replaces(s0: Seq<NamedLayout>, a: NamedLayout, b: NamedLayout)
    requires
        a.id@ == b.id@,
    ensures
        ({
            let s2 = remove_id(remove_id(s0, a.id@).push(a), b.id@).push(b);
            &&& s2 == remove_id(s0, b.id@).push(b)
            &&& s2.len() > 0
            &&& s2.last() == b
            &&& forall|i: int| 0 <= i < s2.len() - 1 ==> (#[trigger] s2[i]).id@ != b.id@
        }),
{
    let s1 = remove_id(s0, a.id@);
    lemma_remove_id_push(s1, a, b.id@);
    lemma_remove_id_idempotent(s0, a.id@);
    lemma_remove_id_removes(s0, b.id@);
    let s2 = remove_id(s1.push(a), b.id@).push(b);
    assert(remove_id(s1.push(a), b.id@) == remove_id(s0, b.id@));
    assert forall|i: int| 0 <= i < s2.len() - 1 implies (#[trigger] s2[i]).id@ != b.id@ by {
        assert(s2[i] == remove_id(s0, b.id@)[i]);
    }
}

/// Adding preserves id uniqueness, and the invariant that the store's
/// operations keep every id at most once.
pub proof fn lemma_add_layout_keeps_ids_unique(s: Seq<NamedLayout>, l: NamedLayout)
    requires
        ids_unique(s),
    ensures
        ids_unique(remove_id(s, l.id@).push(l)),
    decreases s.len(),
{
    lemma_remove_id_subsequence_unique(s, l.id@);
    lemma_remove_id_removes(s, l.id@);
    let r = remove_id(s, l.id@).push(l);
    assert forall|i: int, j: int|
        #![trigger r[i], r[j]]
        0 <= i < j < r.len() implies r[i].id@ != r[j].id@ by {
        if j < r.len() - 1 {
            assert(r[i] == remove_id(s, l.id@)[i] && r[j] == remove_id(s, l.id@)[j]);
        } else {
            assert(r[i] == remove_id(s, l.id@)[i]);
            assert(r[i].id@ != l.id@);
        }
    }
}

/// Removing an id from a sequence of unique ids keeps the rest unique.
pub proof fn lemma_remove_id_subsequence_unique(s: Seq<NamedLayout>, id: Seq<char>)
    requires
        ids_unique(s),
    ensures
        ids_unique(remove_id(s, id)),
    decreases s.len(),
{
    reveal_with_fuel(Seq::<NamedLayout>::filter, 2);
    if s.len() > 0 {
        assert(ids_unique(s.drop_last())) by {
            assert forall|i: int, j: int|
                #![trigger s.drop_last()[i], s.drop_last()[j]]
                0 <= i < j < s.drop_last().len() implies s.drop_last()[i].id@ != s.drop_last()[
                j].id@ by {
                assert(s[i] == s.drop_last()[i] && s[j] == s.drop_last()[j]);
            }
        }
        lemma_remove_id_subsequence_unique(s.drop_last(), id);
        assert(s =~= s.drop_last().push(s.last()));
        lemma_remove_id_push(s.drop_last(), s.last(), id);
        if s.last().id@ != id {
            let prev = remove_id(s.drop_last(), id);
            let r = prev.push(s.last());
            lemma_remove_id_in_source(s.drop_last(), id);
            assert forall|i: int, j: int|
                #![trigger r[i], r[j]]
                0 <= i < j < r.len() implies r[i].id@ != r[j].id@ by {
                if j < r.len() - 1 {
                    assert(r[i] == prev[i] && r[j] == prev[j]);
                } else {
                    assert(r[i] == prev[i]);
                    let k = choose|k: int|
                        0 <= k < s.drop_last().len() && #[trigger] s.drop_last()[k] == prev[i];
                    assert(s[k] == s.drop_last()[k]);
                    assert(s[k].id@ != s.last().id@);
                }
            }
        }
    }
}

/// Every entry of the id-free subsequence occurs in the source.
pub proof fn lemma_remove_id_in_source(s: Seq<NamedLayout>, id: Seq<char>)
    ensures
        forall|i: int|
            #![trigger remove_id(s, id)[i]]
            0 <= i < remove_id(s, id).len() ==> exists|k: int|
                0 <= k < s.len() && #[trigger] s[k] == remove_id(s, id)[i],
    decreases s.len(),
{
    reveal_with_fuel(Seq::<NamedLayout>::filter, 2);
    if s.len() > 0 {
        lemma_remove_id_in_source(s.drop_last(), id);
        assert(s =~= s.drop_last().push(s.last()));
        lemma_remove_id_push(s.drop_last(), s.last(), id);
        let prev = remove_id(s.drop_last(), id);
        let r = remove_id(s, id);
        assert forall|i: int| #![trigger r[i]] 0 <= i < r.len() implies exists|k: int|
            0 <= k < s.len() && #[trigger] s[k] == r[i] by {
            if i < prev.len() {
                assert(exists|k: int|
                    0 <= k < s.drop_last().len() && #[trigger] s.drop_last()[k] == prev[i]);
                let k = choose|k: int|
                    0 <= k < s.drop_last().len() && #[trigger] s.drop_last()[k] == prev[i];
                assert(s[k] == r[i]);
            } else {
                assert(r[i] == s.last());
                assert(s[s.len() - 1] == r[i]);
            }
        }
    }
}

} // verus!
