//! Character-level helpers shared by the parsers and formatters.
use vstd::prelude::*;

verus! {

/// The characters of `s`, in order.
pub fn chars_of(s: &str) -> (v: Vec<char>)
    ensures
        v@ == s@,
{
    let mut v: Vec<char> = Vec::new();
    for c in it: s.chars()
        invariant
            v@ == it.seq().take(it.index() as int),
            it.seq() == s@,
    {
        v.push(c);
    }
    v
}

/// Collects characters into an owned string (`String: FromIterator<char>`).
#[verifier::external_body]
pub(crate) fn string_from_chars(v: &[char]) -> (s: String)
    ensures
        s@ == v@,
{
    v.iter().collect()
}

/// Appends the characters of `s` to `v`.
pub fn push_str(v: &mut Vec<char>, s: &str)
    ensures
        final(v)@ == old(v)@ + s@,
{
    let ghost start = v@;
    for c in it: s.chars()
        invariant
            v@ == start + it.seq().take(it.index() as int),
            it.seq() == s@,
    {
        v.push(c);
    }
    assert(s@.take(s@.len() as int) == s@);
}

/// `str::replace`: every non-overlapping occurrence of `from`, scanning left
/// to right, replaced by `to`.
pub open spec fn replaced(s: Seq<char>, from: Seq<char>, to: Seq<char>) -> Seq<char>
    recommends
        from.len() > 0,
    decreases s.len(),
{
    if from.len() == 0 || s.len() == 0 {
        s
    } else if s.len() >= from.len() && s.take(from.len() as int) == from {
        to + replaced(s.skip(from.len() as int), from, to)
    } else {
        seq![s[0]] + replaced(s.drop_first(), from, to)
    }
}

/// Whether `from` occurs in `s` at index `i`.
fn occurs_at(s: &Vec<char>, i: usize, from: &Vec<char>) -> (r: bool)
    requires
        i <= s.len(),
    ensures
        r == (s.len() - i >= from.len() && s@.subrange(i as int, i + from.len()) == from@),
{
    if s.len() - i < from.len() {
        return false;
    }
    let mut j: usize = 0;
    while j < from.len()
        invariant
            i + from.len() <= s.len(),
            j <= from.len(),
            forall|k: int| 0 <= k < j ==> s@[i + k] == from@[k],
        decreases from.len() - j,
    {
        if s[i + j] != from[j] {
            assert(s@.subrange(i as int, i + from.len())[j as int] != from@[j as int]);
            return false;
        }
        j = j + 1;
    }
    assert(s@.subrange(i as int, i + from.len()) == from@);
    true
}

/// Replaces every occurrence of `from` in `s` by `to`, as `str::replace` does.
pub fn replace_all(s: &str, from: &Vec<char>, to: &Vec<char>) -> (r: Vec<char>)
    requires
        from.len() > 0,
    ensures
        r@ == replaced(s@, from@, to@),
{
    let v = chars_of(s);
    let n = v.len();
    let mut out: Vec<char> = Vec::new();
    let mut i: usize = 0;
    assert(v@.subrange(0, n as int) == v@);
    while i < n
        invariant
            v@ == s@,
            n == v.len(),
            from.len() > 0,
            i <= n,
            replaced(s@, from@, to@) == out@ + replaced(v@.subrange(i as int, n as int), from@, to@),
        decreases n - i,
    {
        let ghost rest = v@.subrange(i as int, n as int);
        let ghost before = out@;
        if occurs_at(&v, i, from) {
            assert(rest.take(from.len() as int) == from@);
            assert(rest.skip(from.len() as int) == v@.subrange(i + from.len(), n as int));
            let mut j: usize = 0;
            while j < to.len()
                invariant
                    j <= to.len(),
                    out@ == before + to@.take(j as int),
                decreases to.len() - j,
            {
                out.push(to[j]);
                j = j + 1;
            }
            assert(to@.take(to.len() as int) == to@);
            assert(out@ + replaced(v@.subrange(i + from.len(), n as int), from@, to@) == before
                + replaced(rest, from@, to@));
            i = i + from.len();
        } else {
            assert(!(rest.len() >= from.len() && rest.take(from.len() as int) == from@)) by {
                if rest.len() >= from.len() {
                    assert(rest.take(from.len() as int) == v@.subrange(i as int, i + from.len()));
                }
            }
            assert(rest.drop_first() == v@.subrange(i + 1, n as int));
            assert(rest[0] == v@[i as int]);
            out.push(v[i]);
            assert(out@ + replaced(v@.subrange(i + 1, n as int), from@, to@) == before
                + replaced(rest, from@, to@));
            i = i + 1;
        }
    }
    assert(replaced(v@.subrange(n as int, n as int), from@, to@) == Seq::<char>::empty());
    assert(out@ + Seq::<char>::empty() == out@);
    out
}

/// ASCII letters folded to lower case, as a code point.
pub open spec fn ascii_folded(c: char) -> u32 {
    if 'A' <= c && c <= 'Z' {
        (c as u32 + 32) as u32
    } else {
        c as u32
    }
}

/// `str::eq_ignore_ascii_case`.
pub open spec fn eq_ignore_ascii_case(a: Seq<char>, b: Seq<char>) -> bool {
    &&& a.len() == b.len()
    &&& forall|i: int| 0 <= i < a.len() ==> #[trigger] ascii_folded(a[i]) == ascii_folded(b[i])
}

fn fold_char(c: char) -> (r: u32)
    ensures
        r == ascii_folded(c),
{
    if 'A' <= c && c <= 'Z' {
        c as u32 + 32
    } else {
        c as u32
    }
}

/// Whether `a` and `b` are equal up to the case of ASCII letters.
pub fn str_eq_ignore_ascii_case(a: &str, b: &str) -> (r: bool)
    ensures
        r == eq_ignore_ascii_case(a@, b@),
{
    let x = chars_of(a);
    let y = chars_of(b);
    if x.len() != y.len() {
        return false;
    }
    let mut i: usize = 0;
    while i < x.len()
        invariant
            x@ == a@,
            y@ == b@,
            x.len() == y.len(),
            i <= x.len(),
            forall|j: int| 0 <= j < i ==> #[trigger] ascii_folded(x@[j]) == ascii_folded(y@[j]),
        decreases x.len() - i,
    {
        if fold_char(x[i]) != fold_char(y[i]) {
            return false;
        }
        i = i + 1;
    }
    true
}

/// Index of the first character of `s` that satisfies `p`, or `-1`.
pub open spec fn first_index_where(s: Seq<char>, p: spec_fn(char) -> bool) -> int
    decreases s.len(),
{
    if s.len() == 0 {
        -1
    } else if p(s[0]) {
        0
    } else {
        let r = first_index_where(s.drop_first(), p);
        if r < 0 {
            -1
        } else {
            r + 1
        }
    }
}

/// Index of the last character of `s` that satisfies `p`, or `-1`.
pub open spec fn last_index_where(s: Seq<char>, p: spec_fn(char) -> bool) -> int
    decreases s.len(),
{
    if s.len() == 0 {
        -1
    } else if p(s.last()) {
        s.len() - 1
    } else {
        last_index_where(s.drop_last(), p)
    }
}

pub proof fn lemma_first_index_where(s: Seq<char>, p: spec_fn(char) -> bool)
    ensures
        -1 <= first_index_where(s, p) < s.len(),
        first_index_where(s, p) == -1 ==> forall|i: int| 0 <= i < s.len() ==> !p(#[trigger] s[i]),
        first_index_where(s, p) >= 0 ==> p(s[first_index_where(s, p)]),
        forall|i: int| 0 <= i < first_index_where(s, p) ==> !p(#[trigger] s[i]),
    decreases s.len(),
{
    if s.len() > 0 && !p(s[0]) {
        let t = s.drop_first();
        lemma_first_index_where(t, p);
        assert forall|i: int| 1 <= i < s.len() implies s[i] == #[trigger] t[i - 1] by {}
        assert forall|i: int| 0 <= i < s.len() && first_index_where(t, p) == -1 implies !p(
            #[trigger] s[i],
        ) by {
            if i > 0 {
                assert(s[i] == t[i - 1]);
            }
        }
        assert forall|i: int| 0 <= i < first_index_where(s, p) implies !p(#[trigger] s[i]) by {
            if i > 0 {
                assert(s[i] == t[i - 1]);
            }
        }
    }
}

pub proof fn lemma_last_index_where(s: Seq<char>, p: spec_fn(char) -> bool)
    ensures
        -1 <= last_index_where(s, p) < s.len(),
        last_index_where(s, p) == -1 ==> forall|i: int| 0 <= i < s.len() ==> !p(#[trigger] s[i]),
        last_index_where(s, p) >= 0 ==> p(s[last_index_where(s, p)]),
        forall|i: int| last_index_where(s, p) < i < s.len() ==> !p(#[trigger] s[i]),
    decreases s.len(),
{
    if s.len() > 0 && !p(s.last()) {
        let t = s.drop_last();
        lemma_last_index_where(t, p);
        assert forall|i: int| 0 <= i < s.len() - 1 implies s[i] == #[trigger] t[i] by {}
        assert(s[s.len() - 1] == s.last());
        assert forall|i: int|
            last_index_where(s, p) < i < s.len() implies !p(#[trigger] s[i]) by {
            if i < s.len() - 1 {
                assert(s[i] == t[i]);
            }
        }
        assert forall|i: int|
            0 <= i < s.len() && last_index_where(s, p) == -1 implies !p(#[trigger] s[i]) by {
            if i < s.len() - 1 {
                assert(s[i] == t[i]);
            }
        }
    }
}

/// The first index is pinned down by the property it has.
pub proof fn lemma_first_index_is(s: Seq<char>, p: spec_fn(char) -> bool, r: int)
    requires
        -1 <= r < s.len(),
        r >= 0 ==> p(s[r]),
        forall|i: int| 0 <= i < s.len() && (r < 0 || i < r) ==> !p(#[trigger] s[i]),
    ensures
        first_index_where(s, p) == r,
{
    lemma_first_index_where(s, p);
    let f = first_index_where(s, p);
    if f >= 0 && (r < 0 || f < r) {
        assert(!p(s[f]));
    }
    if r >= 0 && f != r {
        assert(!p(s[r]));
    }
}

/// The last index is pinned down by the property it has.
pub proof fn lemma_last_index_is(s: Seq<char>, p: spec_fn(char) -> bool, r: int)
    requires
        -1 <= r < s.len(),
        r >= 0 ==> p(s[r]),
        forall|i: int| r < i < s.len() ==> !p(#[trigger] s[i]),
    ensures
        last_index_where(s, p) == r,
{
    lemma_last_index_where(s, p);
    let f = last_index_where(s, p);
    if f > r {
        assert(!p(s[f]));
    }
    if r >= 0 && f < r {
        assert(!p(s[r]));
    }
}

} // verus!
