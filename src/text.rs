//! Small verified string utilities: substring search, repeated prefix
//! stripping and joining.

use vstd::prelude::*;

verus! {

/// `marker` occurs in `s` starting at position `i`.
pub open spec fn occurs_at(s: Seq<char>, marker: Seq<char>, i: int) -> bool {
    0 <= i && i + marker.len() <= s.len() && s.subrange(i, i + marker.len()) == marker
}

/// `t` occurs somewhere in `s`.
pub open spec fn contains_text(s: Seq<char>, t: Seq<char>) -> bool {
    exists|i: int| #[trigger] occurs_at(s, t, i)
}

/// The first position at or after `i` where `marker` occurs in `s`.
pub open spec fn first_occurrence_from(s: Seq<char>, marker: Seq<char>, i: int) -> Option<int>
    decreases s.len() + 1 - i,
{
    if i < 0 || i + marker.len() > s.len() {
        None
    } else if occurs_at(s, marker, i) {
        Some(i)
    } else {
        first_occurrence_from(s, marker, i + 1)
    }
}

/// What follows the first occurrence of `marker` in `s`, if it occurs.
pub open spec fn text_after_spec(s: Seq<char>, marker: Seq<char>) -> Option<Seq<char>> {
    match first_occurrence_from(s, marker, 0) {
        Some(i) => Some(s.subrange(i + marker.len(), s.len() as int)),
        None => None,
    }
}

/// `s` with every leading copy of `prefix` removed, one after another.
pub open spec fn strip_prefixes(s: Seq<char>, prefix: Seq<char>) -> Seq<char>
    decreases s.len(),
{
    if prefix.len() > 0 && prefix.len() <= s.len() && s.subrange(0, prefix.len() as int) == prefix {
        strip_prefixes(s.subrange(prefix.len() as int, s.len() as int), prefix)
    } else {
        s
    }
}

/// The text joined from `parts` with `sep` between each two of them.
pub open spec fn joined(parts: Seq<Seq<char>>, sep: Seq<char>) -> Seq<char>
    decreases parts.len(),
{
    if parts.len() == 0 {
        Seq::empty()
    } else if parts.len() == 1 {
        parts[0]
    } else {
        joined(parts.drop_last(), sep) + sep + parts.last()
    }
}

/// The lowercase form of a text.
pub uninterp spec fn lowercase_of(s: Seq<char>) -> Seq<char>;

/// Relies on `str::to_lowercase`: the lowercase form of the text, which
/// depends on the characters alone.
#[verifier::external_body]
pub(crate) fn to_lowercase(s: &str) -> (r: String)
    ensures
        r@ == lowercase_of(s@),
{
    s.to_lowercase()
}

/// Whether two texts are equal.
pub fn same_text(a: &str, b: &str) -> (r: bool)
    ensures
        r == (a@ == b@),
{
    String::from_str(a) == String::from_str(b)
}

/// `parts` joined with `sep` between each two of them.
pub fn join(parts: &Vec<String>, sep: &str) -> (r: String)
    ensures
        r@ == joined(parts.deep_view(), sep@),
{
    let ghost all = parts.deep_view();
    let mut out = String::new();
    let mut i: usize = 0;
    while i < parts.len()
        invariant
            i <= parts.len(),
            all == parts.deep_view(),
            out@ == joined(all.take(i as int), sep@),
        decreases parts.len() - i,
    {
        assert(all.take(i + 1).drop_last() =~= all.take(i as int));
        if i > 0 {
            out.append(sep);
        }
        out.append(parts[i].as_str());
        proof {
            if i == 0 {
                assert(out@ =~= all.take(1)[0]);
            }
        }
        i += 1;
    }
    assert(all.take(i as int) =~= all);
    out
}

/// Whether `marker` occurs in `s` at position `i`.
fn matches_at(s: &str, marker: &str, i: usize, n: usize, k: usize) -> (r: bool)
    requires
        n == s@.len(),
        k == marker@.len(),
        i + k <= n,
    ensures
        r == occurs_at(s@, marker@, i as int),
{
    let mut j: usize = 0;
    while j < k
        invariant
            j <= k,
            n == s@.len(),
            k == marker@.len(),
            i + k <= n,
            forall|t: int| 0 <= t < j ==> s@[i + t] == marker@[t],
        decreases k - j,
    {
        if s.get_char(i + j) != marker.get_char(j) {
            assert(s@.subrange(i as int, i + k)[j as int] != marker@[j as int]);
            return false;
        }
        j += 1;
    }
    assert(s@.subrange(i as int, i + k) =~= marker@);
    true
}

/// The text that follows the first occurrence of `marker` in `s`.
pub fn text_after(s: &str, marker: &str) -> (r: Option<String>)
    ensures
        r.is_some() == text_after_spec(s@, marker@).is_some(),
        r matches Some(t) ==> text_after_spec(s@, marker@) == Some(t@),
{
    let n = s.unicode_len();
    let k = marker.unicode_len();
    if k > n {
        return None;
    }
    if k == 0 {
        assert(s@.subrange(0, 0) =~= marker@);
        assert(s@.subrange(0, n as int) =~= s@);
        return Some(String::from_str(s));
    }
    let mut i: usize = 0;
    while i <= n - k
        invariant
            n == s@.len(),
            k == marker@.len(),
            0 < k <= n,
            i <= n - k + 1,
            first_occurrence_from(s@, marker@, 0) == first_occurrence_from(s@, marker@, i as int),
        decreases n - i,
    {
        if matches_at(s, marker, i, n, k) {
            let rest = s.substring_char(i + k, n);
            return Some(String::from_str(rest));
        }
        i += 1;
    }
    None
}

/// `s` with every leading copy of `prefix` removed.
pub fn strip_leading(s: &str, prefix: &str) -> (r: String)
    ensures
        r@ == strip_prefixes(s@, prefix@),
{
    let n = s.unicode_len();
    let k = prefix.unicode_len();
    if k == 0 {
        return String::from_str(s);
    }
    let mut i: usize = 0;
    assert(s@.subrange(0, n as int) =~= s@);
    while k <= n - i && matches_at(s, prefix, i, n, k)
        invariant
            n == s@.len(),
            k == prefix@.len(),
            k > 0,
            i <= n,
            strip_prefixes(s@, prefix@) == strip_prefixes(s@.subrange(i as int, n as int), prefix@),
        decreases n - i,
    {
        proof {
            let rest = s@.subrange(i as int, n as int);
            assert(rest.subrange(0, k as int) =~= s@.subrange(i as int, i + k));
            assert(rest.subrange(k as int, rest.len() as int) =~= s@.subrange(i + k, n as int));
        }
        i += k;
    }
    proof {
        let rest = s@.subrange(i as int, n as int);
        if k <= rest.len() {
            assert(rest.subrange(0, k as int) =~= s@.subrange(i as int, i + k));
        }
    }
    String::from_str(s.substring_char(i, n))
}

} // verus!
