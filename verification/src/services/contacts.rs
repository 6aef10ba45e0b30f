//! Whom to tell: the contact list of a tenant, cleaned up.

use crate::models::settings::{UserConfig, UserConfigView};
use crate::text::{texts, trim, trimmed};
use vstd::prelude::*;

verus! {

/// Each text of `s` trimmed, those that come out empty dropped.
pub open spec fn nonblank_trimmed(s: Seq<Seq<char>>) -> Seq<Seq<char>>
    decreases s.len(),
{
    if s.len() == 0 {
        Seq::empty()
    } else if trimmed(s.last()).len() == 0 {
        nonblank_trimmed(s.drop_last())
    } else {
        nonblank_trimmed(s.drop_last()).push(trimmed(s.last()))
    }
}

/// The contacts of a configuration: the primary contact first, if there is
/// one, then the emergency contacts in their order; each trimmed, blank ones
/// left out.
pub open spec fn contacts_of(cfg: UserConfigView) -> Seq<Seq<char>> {
    let first = match cfg.primary_contact {
        Some(p) => seq![p],
        None => Seq::empty(),
    };
    nonblank_trimmed(first) + nonblank_trimmed(cfg.emergency_contacts)
}

/// `s` with every text that occurred before taken out.
pub open spec fn first_occurrences(s: Seq<Seq<char>>) -> Seq<Seq<char>>
    decreases s.len(),
{
    if s.len() == 0 {
        Seq::empty()
    } else if first_occurrences(s.drop_last()).contains(s.last()) {
        first_occurrences(s.drop_last())
    } else {
        first_occurrences(s.drop_last()).push(s.last())
    }
}

/// What is kept of `s` holds every text of `s`, only texts of `s`, and none
/// twice.
pub proof fn lemma_first_occurrences(s: Seq<Seq<char>>)
    ensures
        first_occurrences(s).no_duplicates(),
        first_occurrences(s).len() <= s.len(),
        forall|x: Seq<char>| s.contains(x) <==> first_occurrences(s).contains(x),
    decreases s.len(),
{
    let r = first_occurrences(s);
    if s.len() > 0 {
        let t = s.drop_last();
        let rt = first_occurrences(t);
        lemma_first_occurrences(t);
        assert forall|x: Seq<char>| s.contains(x) <==> r.contains(x) by {
            if s.contains(x) {
                let i = choose|i: int| 0 <= i < s.len() && s[i] == x;
                if i < t.len() {
                    assert(t[i] == x);
                    assert(t.contains(x));
                    assert(rt.contains(x));
                    let k = choose|k: int| 0 <= k < rt.len() && rt[k] == x;
                    assert(r[k] == x);
                } else {
                    assert(x == s.last());
                    if !rt.contains(x) {
                        assert(r[r.len() - 1] == x);
                    }
                }
            }
            if r.contains(x) {
                let k = choose|k: int| 0 <= k < r.len() && r[k] == x;
                if k < rt.len() {
                    assert(rt[k] == x);
                    assert(rt.contains(x));
                    assert(t.contains(x));
                    let i = choose|i: int| 0 <= i < t.len() && t[i] == x;
                    assert(s[i] == x);
                } else {
                    assert(s[s.len() - 1] == x);
                }
            }
        }
    }
}

/// The texts of `list`, each trimmed, blank ones left out.
pub fn clean_list(list: &Vec<String>) -> (r: Vec<String>)
    ensures
        texts(r@) == nonblank_trimmed(texts(list@)),
{
    let mut out: Vec<String> = Vec::new();
    assert(texts(out@) =~= Seq::<Seq<char>>::empty());
    push_nonblank(&mut out, list);
    assert(Seq::<Seq<char>>::empty() + nonblank_trimmed(texts(list@)) =~= nonblank_trimmed(
        texts(list@),
    ));
    out
}

/// Appends to `out` the texts of `from`, each trimmed, blank ones left out.
fn push_nonblank(out: &mut Vec<String>, from: &Vec<String>)
    ensures
        texts(final(out)@) == texts(old(out)@) + nonblank_trimmed(texts(from@)),
{
    let ghost start = texts(out@);
    let ghost all = texts(from@);
    let mut i: usize = 0;
    assert(nonblank_trimmed(all.take(0)) =~= Seq::empty());
    assert(texts(out@) =~= start + nonblank_trimmed(all.take(0)));
    while i < from.len()
        invariant
            i <= from.len(),
            all == texts(from@),
            texts(out@) == start + nonblank_trimmed(all.take(i as int)),
        decreases from.len() - i,
    {
        let t = trim(from[i].as_str());
        proof {
            let now = all.take(i + 1);
            assert(now.drop_last() == all.take(i as int));
            assert(now.last() == from@[i as int]@);
        }
        if !t.as_str().is_empty() {
            let ghost before = out@;
            out.push(t);
            assert(texts(out@) =~= texts(before).push(t@));
            assert(texts(out@) =~= start + nonblank_trimmed(all.take(i + 1)));
        }
        i += 1;
    }
    assert(all.take(from.len() as int) == all);
}

/// The contacts of a configuration, in order, trimmed, blank ones left out.
/// A contact named twice is listed twice.
pub fn collect_contacts(cfg: &UserConfig) -> (r: Vec<String>)
    ensures
        texts(r@) == contacts_of(cfg@),
{
    let mut out: Vec<String> = Vec::new();
    assert(texts(out@) =~= Seq::empty());
    match &cfg.primary_contact {
        Some(p) => {
            let t = trim(p.as_str());
            proof {
                let one = seq![p@];
                assert(one.drop_last() =~= Seq::<Seq<char>>::empty());
                assert(one.last() == p@);
                assert(nonblank_trimmed(one.drop_last()) =~= Seq::empty());
            }
            if !t.as_str().is_empty() {
                out.push(t);
                assert(texts(out@) =~= seq![t@]);
                assert(texts(out@) =~= nonblank_trimmed(seq![p@]));
            } else {
                assert(texts(out@) =~= nonblank_trimmed(seq![p@]));
            }
        },
        None => {
            assert(texts(out@) =~= nonblank_trimmed(Seq::<Seq<char>>::empty()));
        },
    }
    push_nonblank(&mut out, &cfg.emergency_contacts);
    out
}

/// Whether one of `list` holds the text of `x`.
fn holds_text(list: &Vec<String>, x: &String) -> (r: bool)
    ensures
        r == texts(list@).contains(x@),
{
    let mut i: usize = 0;
    while i < list.len()
        invariant
            i <= list.len(),
            forall|k: int| 0 <= k < i ==> texts(list@)[k] != x@,
        decreases list.len() - i,
    {
        if list[i] == *x {
            assert(texts(list@)[i as int] == x@);
            return true;
        }
        i += 1;
    }
    false
}

/// The contacts of a configuration with repetitions taken out: of equal
/// contacts the first stays.
pub fn merge_contacts(cfg: &UserConfig) -> (r: Vec<String>)
    ensures
        texts(r@) == first_occurrences(contacts_of(cfg@)),
        texts(r@).no_duplicates(),
        forall|x: Seq<char>| contacts_of(cfg@).contains(x) <==> texts(r@).contains(x),
{
    let all = collect_contacts(cfg);
    let mut out: Vec<String> = Vec::new();
    let ghost seen = texts(all@);
    assert(texts(out@) =~= first_occurrences(seen.take(0)));
    let mut i: usize = 0;
    while i < all.len()
        invariant
            i <= all.len(),
            seen == texts(all@),
            texts(out@) == first_occurrences(seen.take(i as int)),
        decreases all.len() - i,
    {
        proof {
            let now = seen.take(i + 1);
            assert(now.drop_last() == seen.take(i as int));
            assert(now.last() == all@[i as int]@);
        }
        if !holds_text(&out, &all[i]) {
            let ghost before = out@;
            let c = all[i].clone();
            out.push(c);
            assert(texts(out@) =~= texts(before).push(all@[i as int]@));
        }
        i += 1;
    }
    proof {
        assert(seen.take(all.len() as int) == seen);
        lemma_first_occurrences(seen);
    }
    out
}

} // verus!
