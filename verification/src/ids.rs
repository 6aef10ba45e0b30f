//! Fresh identifiers, drawn from `uuid`.

use crate::text::{remove_char, without_char};
use uuid::Uuid;
use vstd::prelude::*;

verus! {

/// A decimal digit or a letter from `a` to `f`.
pub open spec fn is_hex_lower(c: char) -> bool {
    ('0' <= c && c <= '9') || ('a' <= c && c <= 'f')
}

/// The hyphenated form of a UUID: 36 characters, hyphens after the 8th, 12th,
/// 16th and 20th digit, lower-case hexadecimal digits elsewhere.
pub open spec fn is_uuid_text(s: Seq<char>) -> bool {
    &&& s.len() == 36
    &&& forall|i: int|
        0 <= i < 36 ==> if i == 8 || i == 13 || i == 18 || i == 23 {
            #[trigger] s[i] == '-'
        } else {
            is_hex_lower(s[i])
        }
}

/// Every character is a lower-case hexadecimal digit.
pub open spec fn is_hex_text(s: Seq<char>) -> bool {
    forall|i: int| 0 <= i < s.len() ==> is_hex_lower(#[trigger] s[i])
}

/// Draws a random UUID with `Uuid::new_v4` and writes it with its `Display`
/// impl, which gives the hyphenated lower-case form. Only that shape is
/// claimed: the digits are random. `uuid` panics if the system has no source
/// of randomness.
#[verifier::external_body]
pub(crate) fn random_uuid() -> (r: String)
    ensures
        is_uuid_text(r@),
{
    Uuid::new_v4().to_string()
}

/// A fresh identifier in the hyphenated UUID form.
pub fn fresh_id() -> (r: String)
    ensures
        is_uuid_text(r@),
{
    random_uuid()
}

/// The digits of a UUID in its hyphenated form, in order.
pub open spec fn uuid_digits(id: Seq<char>) -> Seq<char> {
    without_char(id, '-')
}

/// A UUID has 32 digits: what is left of its hyphenated form without the
/// hyphens is the five runs of digits between them.
pub proof fn lemma_uuid_digits(id: Seq<char>)
    requires
        is_uuid_text(id),
    ensures
        uuid_digits(id) == id.subrange(0, 8) + id.subrange(9, 13) + id.subrange(14, 18)
            + id.subrange(19, 23) + id.subrange(24, 36),
        uuid_digits(id).len() == 32,
        is_hex_text(uuid_digits(id)),
{
    assert forall|i: int| 0 <= i < 36 && i != 8 && i != 13 && i != 18 && i != 23 implies id[i]
        != '-' by {
        assert(is_hex_lower(id[i]));
    }
    lemma_without_char_run(id, '-', 0, 8);
    lemma_without_char_skip(id, '-', 8);
    lemma_without_char_run(id, '-', 9, 13);
    lemma_without_char_skip(id, '-', 13);
    lemma_without_char_run(id, '-', 14, 18);
    lemma_without_char_skip(id, '-', 18);
    lemma_without_char_run(id, '-', 19, 23);
    lemma_without_char_skip(id, '-', 23);
    lemma_without_char_run(id, '-', 24, 36);
    assert(id.take(36) == id);
    assert(id.take(0) == Seq::<char>::empty());
    let digits = id.subrange(0, 8) + id.subrange(9, 13) + id.subrange(14, 18) + id.subrange(19, 23)
        + id.subrange(24, 36);
    assert(without_char(id.take(8), '-') == id.subrange(0, 8));
    assert(without_char(id.take(13), '-') == id.subrange(0, 8) + id.subrange(9, 13));
    assert(without_char(id.take(18), '-') == id.subrange(0, 8) + id.subrange(9, 13) + id.subrange(
        14,
        18,
    ));
    assert(without_char(id.take(23), '-') == id.subrange(0, 8) + id.subrange(9, 13) + id.subrange(
        14,
        18,
    ) + id.subrange(19, 23));
    assert(uuid_digits(id) == digits);
    assert forall|i: int| 0 <= i < digits.len() implies is_hex_lower(#[trigger] digits[i]) by {
        if i < 8 {
            assert(digits[i] == id[i]);
        } else if i < 12 {
            assert(digits[i] == id[i + 1]);
        } else if i < 16 {
            assert(digits[i] == id[i + 2]);
        } else if i < 20 {
            assert(digits[i] == id[i + 3]);
        } else {
            assert(digits[i] == id[i + 4]);
        }
    }
}

/// Over a run of `s` that holds no `c`, taking `c` out keeps the run.
proof fn lemma_without_char_run(s: Seq<char>, c: char, from: int, to: int)
    requires
        0 <= from <= to <= s.len(),
        forall|i: int| from <= i < to ==> s[i] != c,
    ensures
        without_char(s.take(to), c) == without_char(s.take(from), c) + s.subrange(from, to),
    decreases to - from,
{
    if from < to {
        lemma_without_char_run(s, c, from, to - 1);
        let now = s.take(to);
        assert(now.drop_last() == s.take(to - 1));
        assert(now.last() == s[to - 1]);
        assert(s.subrange(from, to) == s.subrange(from, to - 1).push(s[to - 1]));
        assert(without_char(s.take(from), c) + s.subrange(from, to - 1).push(s[to - 1]) == (
        without_char(s.take(from), c) + s.subrange(from, to - 1)).push(s[to - 1]));
    } else {
        assert(s.subrange(from, to) == Seq::<char>::empty());
        assert(without_char(s.take(from), c) + Seq::<char>::empty() == without_char(
            s.take(from),
            c,
        ));
    }
}

/// Taking `c` out passes over a `c`.
proof fn lemma_without_char_skip(s: Seq<char>, c: char, at: int)
    requires
        0 <= at < s.len(),
        s[at] == c,
    ensures
        without_char(s.take(at + 1), c) == without_char(s.take(at), c),
{
    let now = s.take(at + 1);
    assert(now.drop_last() == s.take(at));
    assert(now.last() == s[at]);
}

/// A fresh run of hexadecimal digits: the 32 digits of a fresh UUID, in
/// their order, without the hyphens.
pub fn fresh_suffix() -> (r: String)
    ensures
        exists|id: Seq<char>| is_uuid_text(id) && r@ == #[trigger] uuid_digits(id),
        r@.len() == 32,
        is_hex_text(r@),
{
    let id = random_uuid();
    let r = remove_char(id.as_str(), '-');
    proof {
        lemma_uuid_digits(id@);
        assert(r@ == uuid_digits(id@));
    }
    r
}

} // verus!
