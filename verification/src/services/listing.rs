//! What a scan of a directory found, and how the documents read from it are
//! put in order: newest first, unreadable ones left out.

use crate::clock::{lemma_instant_order, Stamped, Timestamp};
use vstd::prelude::*;

verus! {

/// What became of the attempt to read one document.
#[derive(Clone, Debug, PartialEq, Eq)]
pub enum Fetched<T> {
    /// There is no such file.
    Missing,
    /// The file is there but could not be read; the text says why.
    Unreadable(String),
    /// The file holds no bytes: a write that never got going.
    Empty,
    /// The bytes could not be decoded; the text says why.
    Corrupt(String),
    /// The decoded document.
    Document(T),
}

impl<T> Fetched<T> {
    /// Sorts the outcome of a read that gave `size` bytes: no bytes is
    /// `Empty`, bytes that decoded are the document, bytes that did not are
    /// `Corrupt` with the decoder's complaint.
    pub fn from_read(size: usize, decoded: Result<T, String>) -> (r: Fetched<T>)
        ensures
            size == 0 ==> r == Fetched::<T>::Empty,
            size > 0 ==> r == match decoded {
                Ok(d) => Fetched::Document(d),
                Err(why) => Fetched::Corrupt(why),
            },
    {
        if size == 0 {
            Fetched::Empty
        } else {
            match decoded {
                Ok(d) => Fetched::Document(d),
                Err(why) => Fetched::Corrupt(why),
            }
        }
    }
}

/// What there is to log of an outcome when documents are listed: the reason
/// why a file could not be read or decoded. A missing or empty file is passed
/// over in silence, and a document is no complaint.
pub open spec fn complaint_of<T>(found: Fetched<T>) -> Option<Seq<char>> {
    match found {
        Fetched::Unreadable(why) => Some(why@),
        Fetched::Corrupt(why) => Some(why@),
        _ => None,
    }
}

impl<T> Fetched<T> {
    /// What there is to log of this outcome when documents are listed.
    pub fn complaint(&self) -> (r: Option<String>)
        ensures
            r.deep_view() == complaint_of(*self),
    {
        match self {
            Fetched::Unreadable(why) => Some(why.clone()),
            Fetched::Corrupt(why) => Some(why.clone()),
            _ => None,
        }
    }
}

/// The kind of a directory entry.
#[derive(Clone, Copy, Debug, PartialEq, Eq, Structural)]
pub enum EntryKind {
    File,
    Dir,
    Other,
    /// The entry's metadata could not be read.
    Unknown,
}

/// One entry of a directory: its name and kind.
#[derive(Clone, Debug, PartialEq, Eq)]
pub struct DirEntryInfo {
    pub name: String,
    pub kind: EntryKind,
}

/// What became of the attempt to list a directory.
#[derive(Clone, Debug, PartialEq, Eq)]
pub enum DirScan {
    /// There is no such directory.
    Missing,
    /// The directory could not be opened or walked; the text says why.
    Unreadable(String),
    /// The entries, in the order in which the directory gave them.
    Entries(Vec<DirEntryInfo>),
}

/// The documents among the outcomes, in their order; every other outcome is
/// passed over.
pub open spec fn documents<T>(loaded: Seq<Fetched<T>>) -> Seq<T>
    decreases loaded.len(),
{
    if loaded.len() == 0 {
        Seq::empty()
    } else {
        match loaded.last() {
            Fetched::Document(d) => documents(loaded.drop_last()).push(d),
            _ => documents(loaded.drop_last()),
        }
    }
}

/// `sorted` with `x` put in behind everything that is not older than `x`.
pub open spec fn insert_newest_first<T: Stamped>(sorted: Seq<T>, x: T) -> Seq<T>
    decreases sorted.len(),
{
    if sorted.len() > 0 && sorted.last().stamp().precedes(x.stamp()) {
        insert_newest_first(sorted.drop_last(), x).push(sorted.last())
    } else {
        sorted.push(x)
    }
}

/// The records of `s` from the newest to the oldest; records of one instant
/// keep the order they had in `s`.
pub open spec fn newest_first<T: Stamped>(s: Seq<T>) -> Seq<T>
    decreases s.len(),
{
    if s.len() == 0 {
        s
    } else {
        insert_newest_first(newest_first(s.drop_last()), s.last())
    }
}

/// No record of `s` is older than one that follows it.
pub open spec fn is_newest_first<T: Stamped>(s: Seq<T>) -> bool {
    forall|i: int, j: int| 0 <= i < j < s.len() ==> !s[i].stamp().precedes(s[j].stamp())
}

/// Where `x` goes: `p` is the place behind the last record not older than `x`.
pub proof fn lemma_insert_position<T: Stamped>(s: Seq<T>, x: T, p: int)
    requires
        0 <= p <= s.len(),
        forall|j: int| p <= j < s.len() ==> s[j].stamp().precedes(x.stamp()),
        p == 0 || !s[p - 1].stamp().precedes(x.stamp()),
    ensures
        insert_newest_first(s, x) == s.insert(p, x),
    decreases s.len(),
{
    if s.len() > 0 && s.last().stamp().precedes(x.stamp()) {
        assert(p < s.len());
        let t = s.drop_last();
        lemma_insert_position(t, x, p);
        assert(t.insert(p, x).push(s.last()) == s.insert(p, x));
    } else {
        if s.len() > 0 {
            assert(p == s.len());
        }
        assert(s.push(x) == s.insert(s.len() as int, x));
    }
}

/// Putting a record in adds it and changes nothing else.
pub proof fn lemma_insert_holds_the_same<T: Stamped>(s: Seq<T>, x: T)
    ensures
        insert_newest_first(s, x).to_multiset() == s.to_multiset().insert(x),
        insert_newest_first(s, x).len() == s.len() + 1,
    decreases s.len(),
{
    broadcast use vstd::seq_lib::group_to_multiset_ensures;

    if s.len() > 0 && s.last().stamp().precedes(x.stamp()) {
        let t = s.drop_last();
        lemma_insert_holds_the_same(t, x);
        assert(t.push(s.last()) == s);
        assert(insert_newest_first(t, x).push(s.last()).to_multiset() == t.to_multiset().insert(
            x,
        ).insert(s.last()));
        assert(t.to_multiset().insert(s.last()).insert(x) == t.to_multiset().insert(x).insert(
            s.last(),
        ));
    }
}

/// Putting a record into an ordered sequence keeps it ordered.
pub proof fn lemma_insert_keeps_order<T: Stamped>(s: Seq<T>, x: T)
    requires
        is_newest_first(s),
    ensures
        is_newest_first(insert_newest_first(s, x)),
    decreases s.len(),
{
    let r = insert_newest_first(s, x);
    if s.len() > 0 && s.last().stamp().precedes(x.stamp()) {
        let t = s.drop_last();
        assert(is_newest_first(t)) by {
            assert forall|i: int, j: int| 0 <= i < j < t.len() implies !t[i].stamp().precedes(
                t[j].stamp(),
            ) by {
                assert(t[i] == s[i] && t[j] == s[j]);
            }
        }
        lemma_insert_keeps_order(t, x);
        lemma_insert_members(t, x);
        let u = insert_newest_first(t, x);
        assert forall|i: int, j: int| 0 <= i < j < r.len() implies !r[i].stamp().precedes(
            r[j].stamp(),
        ) by {
            if j < u.len() {
                assert(r[i] == u[i] && r[j] == u[j]);
            } else {
                assert(r[j] == s.last());
                assert(r[i] == u[i]);
                if u[i] == x {
                    lemma_instant_order(s.last().stamp(), x.stamp(), x.stamp());
                } else {
                    let k = choose|k: int| 0 <= k < t.len() && t[k] == u[i];
                    assert(s[k] == u[i]);
                    assert(!s[k].stamp().precedes(s[s.len() - 1].stamp()));
                }
            }
        }
    } else {
        assert forall|i: int, j: int| 0 <= i < j < r.len() implies !r[i].stamp().precedes(
            r[j].stamp(),
        ) by {
            if j < s.len() {
                assert(r[i] == s[i] && r[j] == s[j]);
            } else {
                assert(r[j] == x);
                assert(r[i] == s[i]);
                let last = s[s.len() - 1];
                assert(!last.stamp().precedes(x.stamp()));
                if i < s.len() - 1 {
                    assert(!s[i].stamp().precedes(last.stamp()));
                }
                lemma_instant_order(s[i].stamp(), last.stamp(), x.stamp());
                lemma_instant_order(s[i].stamp(), x.stamp(), last.stamp());
                lemma_instant_order(last.stamp(), x.stamp(), s[i].stamp());
            }
        }
    }
}

/// What comes out of an insertion is the new record or one that was there.
pub proof fn lemma_insert_members<T: Stamped>(s: Seq<T>, x: T)
    ensures
        forall|i: int|
            0 <= i < insert_newest_first(s, x).len() ==> (#[trigger] insert_newest_first(s, x)[i])
                == x || s.contains(insert_newest_first(s, x)[i]),
    decreases s.len(),
{
    let r = insert_newest_first(s, x);
    if s.len() > 0 && s.last().stamp().precedes(x.stamp()) {
        let t = s.drop_last();
        lemma_insert_members(t, x);
        let u = insert_newest_first(t, x);
        assert forall|i: int| 0 <= i < r.len() implies (#[trigger] r[i]) == x || s.contains(
            r[i],
        ) by {
            if i < u.len() {
                assert(r[i] == u[i]);
                if u[i] != x {
                    let k = choose|k: int| 0 <= k < t.len() && t[k] == u[i];
                    assert(s[k] == u[i]);
                }
            } else {
                assert(r[i] == s[s.len() - 1]);
            }
        }
    } else {
        assert forall|i: int| 0 <= i < r.len() implies (#[trigger] r[i]) == x || s.contains(
            r[i],
        ) by {
            if i < s.len() {
                assert(r[i] == s[i]);
            }
        }
    }
}

/// Ordering. The listing runs from the newest record to the oldest.
pub proof fn lemma_newest_first_is_ordered<T: Stamped>(s: Seq<T>)
    ensures
        is_newest_first(newest_first(s)),
    decreases s.len(),
{
    if s.len() > 0 {
        lemma_newest_first_is_ordered(s.drop_last());
        lemma_insert_keeps_order(newest_first(s.drop_last()), s.last());
    }
}

/// The listing holds the records it was given, each as often as it was given,
/// and nothing else.
pub proof fn lemma_newest_first_holds_the_same<T: Stamped>(s: Seq<T>)
    ensures
        newest_first(s).to_multiset() == s.to_multiset(),
        newest_first(s).len() == s.len(),
    decreases s.len(),
{
    broadcast use vstd::seq_lib::group_to_multiset_ensures;

    if s.len() > 0 {
        let t = s.drop_last();
        lemma_newest_first_holds_the_same(t);
        lemma_insert_holds_the_same(newest_first(t), s.last());
        assert(t.push(s.last()) == s);
    }
}

/// Resilience to corruption. Every decoded document of the input is among
/// the documents, and every one of them was a decoded document of the input:
/// an outcome of another kind neither shows up nor keeps a document out.
pub proof fn lemma_documents_are_the_decoded<T>(loaded: Seq<Fetched<T>>)
    ensures
        documents(loaded).len() <= loaded.len(),
        forall|i: int|
            0 <= i < loaded.len() && (#[trigger] loaded[i]) is Document ==> documents(
                loaded,
            ).contains(loaded[i]->Document_0),
        forall|k: int|
            0 <= k < documents(loaded).len() ==> loaded.contains(
                Fetched::Document(#[trigger] documents(loaded)[k]),
            ),
    decreases loaded.len(),
{
    if loaded.len() > 0 {
        let t = loaded.drop_last();
        lemma_documents_are_the_decoded(t);
        let r = documents(loaded);
        let rt = documents(t);
        assert forall|i: int| 0 <= i < loaded.len() && (#[trigger] loaded[i]) is Document implies r.contains(
            loaded[i]->Document_0,
        ) by {
            if i < t.len() {
                assert(t[i] == loaded[i]);
                let d = loaded[i]->Document_0;
                assert(rt.contains(d));
                let k = choose|k: int| 0 <= k < rt.len() && rt[k] == d;
                assert(r[k] == d);
            } else {
                assert(r[r.len() - 1] == loaded[i]->Document_0);
            }
        }
        assert forall|k: int| 0 <= k < r.len() implies loaded.contains(
            Fetched::Document(#[trigger] r[k]),
        ) by {
            if k < rt.len() {
                assert(r[k] == rt[k]);
                let f = Fetched::Document(rt[k]);
                assert(t.contains(f));
                let i = choose|i: int| 0 <= i < t.len() && t[i] == f;
                assert(loaded[i] == f);
            } else {
                assert(loaded[loaded.len() - 1] == Fetched::Document(r[k]));
            }
        }
    }
}

/// Puts `x` into `out`, which runs from newest to oldest, behind everything
/// that is not older.
pub fn place_newest_first<T: Stamped>(out: &mut Vec<T>, x: T)
    ensures
        final(out)@ == insert_newest_first(old(out)@, x),
{
    let at: Timestamp = x.stamped_at();
    let mut pos: usize = out.len();
    while pos > 0 && out[pos - 1].stamped_at().is_before(&at)
        invariant
            pos <= out.len(),
            out@ == old(out)@,
            at == x.stamp(),
            forall|j: int| pos <= j < out.len() ==> out@[j].stamp().precedes(x.stamp()),
        decreases pos,
    {
        pos -= 1;
    }
    proof {
        lemma_insert_position(out@, x, pos as int);
    }
    out.insert(pos, x);
}

/// The documents among `loaded`, newest first.
pub fn list_newest_first<T: Stamped>(loaded: Vec<Fetched<T>>) -> (r: Vec<T>)
    ensures
        r@ == newest_first(documents(loaded@)),
        is_newest_first(r@),
        r@.to_multiset() == documents(loaded@).to_multiset(),
{
    let ghost all = loaded@;
    let mut out: Vec<T> = Vec::new();
    for item in it: loaded
        invariant
            it.seq() == all,
            out@ == newest_first(documents(all.take(it.index() as int))),
    {
        let ghost before = all.take(it.index() as int);
        let ghost now = all.take(it.index() + 1);
        proof {
            assert(now.drop_last() == before);
            assert(now.last() == item);
        }
        match item {
            Fetched::Document(d) => {
                proof {
                    assert(documents(now) == documents(before).push(d));
                    assert(documents(now).drop_last() == documents(before));
                    assert(documents(now).last() == d);
                }
                place_newest_first(&mut out, d);
            },
            _ => {
                assert(documents(now) == documents(before));
            },
        }
    }
    proof {
        assert(all.take(all.len() as int) == all);
        lemma_newest_first_is_ordered(documents(all));
        lemma_newest_first_holds_the_same(documents(all));
    }
    out
}

} // verus!
