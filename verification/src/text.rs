//! Verified splitting and joining of character sequences, and a verified
//! string comparison. These are the text primitives behind command parsing
//! and callback-payload validation.

use vstd::prelude::*;
use vstd::string::*;

verus! {

/// Number of occurrences of `d` in `s`.
pub open spec fn count_char(s: Seq<char>, d: char) -> nat
    decreases s.len(),
{
    if s.len() == 0 {
        0
    } else {
        (if s[0] == d {
            1nat
        } else {
            0nat
        }) + count_char(s.skip(1), d)
    }
}

/// The segments of `s` lying between occurrences of `d`, in order.
/// There is always at least one part; `n` occurrences of `d` yield
/// `n + 1` parts, and empty parts are kept.
pub open spec fn split_at_char(s: Seq<char>, d: char) -> Seq<Seq<char>>
    decreases s.len(),
{
    if s.len() == 0 {
        seq![Seq::<char>::empty()]
    } else if s[0] == d {
        seq![Seq::<char>::empty()] + split_at_char(s.skip(1), d)
    } else {
        let rest = split_at_char(s.skip(1), d);
        seq![seq![s[0]] + rest[0]] + rest.skip(1)
    }
}

/// The parts joined back together, with `d` between adjacent parts.
pub open spec fn join_with(parts: Seq<Seq<char>>, d: char) -> Seq<char>
    decreases parts.len(),
{
    if parts.len() == 0 {
        Seq::empty()
    } else if parts.len() == 1 {
        parts[0]
    } else {
        parts[0] + seq![d] + join_with(parts.skip(1), d)
    }
}

/// The views of a sequence of strings.
pub open spec fn views_of(parts: Seq<String>) -> Seq<Seq<char>> {
    parts.map_values(|p: String| p@)
}

/// Occurrences in a concatenation are the occurrences of the two halves.
pub proof fn lemma_count_char_concat(a: Seq<char>, b: Seq<char>, d: char)
    ensures
        count_char(a + b, d) == count_char(a, d) + count_char(b, d),
    decreases a.len(),
{
    if a.len() == 0 {
        assert(a + b =~= b);
    } else {
        assert((a + b).skip(1) =~= a.skip(1) + b);
        lemma_count_char_concat(a.skip(1), b, d);
        assert((a + b)[0] == a[0]);
    }
}

/// `d` does not occur in `s` exactly when no position of `s` holds it.
pub proof fn lemma_count_char_zero(s: Seq<char>, d: char)
    ensures
        (count_char(s, d) == 0) <==> (forall|i: int| 0 <= i < s.len() ==> s[i] != d),
    decreases s.len(),
{
    if s.len() > 0 {
        lemma_count_char_zero(s.skip(1), d);
        if count_char(s, d) == 0 {
            assert forall|i: int| 0 <= i < s.len() implies s[i] != d by {
                if i > 0 {
                    assert(s[i] == s.skip(1)[i - 1]);
                }
            }
        }
        if forall|i: int| 0 <= i < s.len() ==> s[i] != d {
            assert forall|i: int| 0 <= i < s.skip(1).len() implies s.skip(1)[i] != d by {
                assert(s.skip(1)[i] == s[i + 1]);
            }
        }
    }
}

/// Splitting on `d` yields one part more than there are occurrences of `d`.
pub proof fn lemma_split_len(s: Seq<char>, d: char)
    ensures
        split_at_char(s, d).len() == count_char(s, d) + 1,
    decreases s.len(),
{
    if s.len() > 0 {
        lemma_split_len(s.skip(1), d);
    }
}

/// A sequence free of the delimiter splits into itself alone.
pub proof fn lemma_split_no_delim(s: Seq<char>, d: char)
    requires
        forall|i: int| 0 <= i < s.len() ==> s[i] != d,
    ensures
        split_at_char(s, d) == seq![s],
    decreases s.len(),
{
    if s.len() == 0 {
        assert(split_at_char(s, d) =~~= seq![s]);
    } else {
        assert forall|i: int| 0 <= i < s.skip(1).len() implies s.skip(1)[i] != d by {
            assert(s.skip(1)[i] == s[i + 1]);
        }
        lemma_split_no_delim(s.skip(1), d);
        let rest = split_at_char(s.skip(1), d);
        assert(rest.skip(1) =~= Seq::<Seq<char>>::empty());
        assert(seq![s[0]] + rest[0] =~= s);
        assert(split_at_char(s, d) =~~= seq![s]);
    }
}

/// Splitting at the first occurrence of the delimiter: the part before it,
/// then the split of what follows it.
pub proof fn lemma_split_at_first(s: Seq<char>, d: char, i: int)
    requires
        0 <= i < s.len(),
        s[i] == d,
        forall|j: int| 0 <= j < i ==> s[j] != d,
    ensures
        split_at_char(s, d) == seq![s.take(i)] + split_at_char(s.skip(i + 1), d),
    decreases i,
{
    if i == 0 {
        assert(s.take(0) =~= Seq::<char>::empty());
        assert(split_at_char(s, d) =~~= seq![s.take(0)] + split_at_char(s.skip(1), d));
    } else {
        let t = s.skip(1);
        assert(t[i - 1] == d);
        assert forall|j: int| 0 <= j < i - 1 implies t[j] != d by {
            assert(t[j] == s[j + 1]);
        }
        lemma_split_at_first(t, d, i - 1);
        let rest = split_at_char(t, d);
        assert(rest[0] == t.take(i - 1));
        assert(rest.skip(1) =~= split_at_char(t.skip(i), d));
        assert(t.skip(i) =~= s.skip(i + 1));
        assert(seq![s[0]] + t.take(i - 1) =~= s.take(i));
        assert(split_at_char(s, d) =~~= seq![s.take(i)] + split_at_char(s.skip(i + 1), d));
    }
}

/// Joining the parts of a split restores the sequence that was split.
pub proof fn lemma_split_join(s: Seq<char>, d: char)
    ensures
        join_with(split_at_char(s, d), d) == s,
    decreases s.len(),
{
    if s.len() == 0 {
    } else if s[0] == d {
        lemma_split_join(s.skip(1), d);
        lemma_split_len(s.skip(1), d);
        let rest = split_at_char(s.skip(1), d);
        assert((seq![Seq::<char>::empty()] + rest).skip(1) =~= rest);
        assert(join_with(split_at_char(s, d), d) =~= s);
    } else {
        lemma_split_join(s.skip(1), d);
        lemma_split_len(s.skip(1), d);
        let rest = split_at_char(s.skip(1), d);
        let whole = seq![seq![s[0]] + rest[0]] + rest.skip(1);
        assert(split_at_char(s, d) == whole);
        if rest.len() == 1 {
            assert(whole.len() == 1);
            assert(join_with(rest, d) == rest[0]);
            assert(join_with(whole, d) =~= s);
        } else {
            assert(whole.skip(1) =~= rest.skip(1));
            assert(join_with(whole, d) == whole[0] + seq![d] + join_with(whole.skip(1), d));
            assert(whole[0] == seq![s[0]] + rest[0]);
            assert(join_with(rest, d) == rest[0] + seq![d] + join_with(rest.skip(1), d));
            assert(join_with(whole, d) =~= seq![s[0]] + join_with(rest, d));
            assert(join_with(whole, d) =~= s);
        }
    }
}

/// No part of a split contains the delimiter.
pub proof fn lemma_split_parts_no_delim(s: Seq<char>, d: char)
    ensures
        forall|k: int|
            0 <= k < split_at_char(s, d).len() ==> count_char(
                #[trigger] split_at_char(s, d)[k],
                d,
            ) == 0,
    decreases s.len(),
{
    if s.len() == 0 {
        assert(count_char(Seq::<char>::empty(), d) == 0);
    } else if s[0] == d {
        lemma_split_parts_no_delim(s.skip(1), d);
        assert(count_char(Seq::<char>::empty(), d) == 0);
        assert forall|k: int| 0 <= k < split_at_char(s, d).len() implies count_char(
            split_at_char(s, d)[k],
            d,
        ) == 0 by {
            if k > 0 {
                assert(split_at_char(s, d)[k] == split_at_char(s.skip(1), d)[k - 1]);
            }
        }
    } else {
        lemma_split_parts_no_delim(s.skip(1), d);
        lemma_split_len(s.skip(1), d);
        let rest = split_at_char(s.skip(1), d);
        lemma_count_char_concat(seq![s[0]], rest[0], d);
        assert(seq![s[0]].skip(1) =~= Seq::<char>::empty());
        assert(count_char(Seq::<char>::empty(), d) == 0);
        assert(count_char(seq![s[0]], d) == (if s[0] == d {
            1nat
        } else {
            0nat
        }) + count_char(seq![s[0]].skip(1), d));
        assert(count_char(seq![s[0]], d) == 0);
        assert forall|k: int| 0 <= k < split_at_char(s, d).len() implies count_char(
            split_at_char(s, d)[k],
            d,
        ) == 0 by {
            if k == 0 {
                assert(split_at_char(s, d)[0] == seq![s[0]] + rest[0]);
            } else {
                assert(split_at_char(s, d)[k] == rest[k]);
            }
        }
    }
}

/// Character-by-character string equality, proved against the views.
pub fn str_eq(a: &str, b: &str) -> (r: bool)
    ensures
        r == (a@ == b@),
{
    let alen = a.unicode_len();
    let blen = b.unicode_len();
    if alen != blen {
        return false;
    }
    let mut i: usize = 0;
    while i < alen
        invariant
            0 <= i <= alen,
            alen == a@.len(),
            alen == b@.len(),
            forall|j: int| 0 <= j < i ==> a@[j] == b@[j],
        decreases alen - i,
    {
        let ca = a.get_char(i);
        let cb = b.get_char(i);
        if ca != cb {
            return false;
        }
        i += 1;
    }
    proof {
        assert(a@ =~= b@);
    }
    true
}

/// Splits `s` at every occurrence of `d`, returning the parts in order.
pub fn split_str(s: &str, d: char) -> (parts: Vec<String>)
    ensures
        views_of(parts@) == split_at_char(s@, d),
{
    let len = s.unicode_len();
    let mut parts: Vec<String> = Vec::new();
    let mut start: usize = 0;
    let mut i: usize = 0;
    proof {
        assert(s@.skip(0) =~= s@);
        assert(views_of(Seq::<String>::empty()) + split_at_char(s@, d) =~~= split_at_char(s@, d));
    }
    while i < len
        invariant
            0 <= start <= i <= len,
            len == s@.len(),
            forall|j: int| start <= j < i ==> s@[j] != d,
            split_at_char(s@, d) == views_of(parts@) + split_at_char(s@.skip(start as int), d),
        decreases len - i,
    {
        let c = s.get_char(i);
        if c == d {
            let part = s.substring_char(start, i);
            let part_string = String::from_str(part);
            proof {
                let tail = s@.skip(start as int);
                assert forall|j: int| 0 <= j < i - start implies tail[j] != d by {
                    assert(tail[j] == s@[start + j]);
                }
                assert(tail[i - start as int] == d);
                lemma_split_at_first(tail, d, i as int - start as int);
                assert(tail.take(i as int - start as int) =~= part_string@);
                assert(tail.skip(i as int - start as int + 1) =~= s@.skip(i as int + 1));
                assert(views_of(parts@.push(part_string)) =~~= views_of(parts@) + seq![
                    part_string@,
                ]);
                assert(split_at_char(s@, d) =~~= views_of(parts@.push(part_string))
                    + split_at_char(s@.skip(i as int + 1), d));
            }
            parts.push(part_string);
            start = i + 1;
        }
        i += 1;
    }
    let last = s.substring_char(start, len);
    let last_string = String::from_str(last);
    proof {
        let tail = s@.skip(start as int);
        assert forall|j: int| 0 <= j < tail.len() implies tail[j] != d by {
            assert(tail[j] == s@[start + j]);
        }
        lemma_split_no_delim(tail, d);
        assert(last_string@ =~= tail);
        assert(views_of(parts@.push(last_string)) =~~= views_of(parts@) + seq![last_string@]);
        assert(split_at_char(s@, d) =~~= views_of(parts@.push(last_string)));
    }
    parts.push(last_string);
    parts
}

} // verus!
