//! Release version strings: the `(major, minor, patch)` triple the updater
//! compares, read the forgiving way the launcher has always read them.
//!
//! A version is trimmed of surrounding whitespace, stripped of leading `v`s,
//! cut at the first `-` or `+` (pre-release and build metadata are ignored),
//! and split at `.`; each of the first three fields that is a decimal `u64`
//! gives its value, and every other field (missing, empty, not a number, or
//! too large) counts as `0`.
use vstd::prelude::*;
use crate::text::{
    chars_of, string_from_chars, first_index_where, last_index_where, lemma_first_index_is, lemma_first_index_where,
    lemma_last_index_is, lemma_last_index_where,
};

verus! {

// ---------------------------------------------------------------------------
// Specification
// ---------------------------------------------------------------------------

/// The Unicode `White_Space` property, which `char::is_whitespace` (and so
/// `str::trim`) tests.
pub open spec fn is_whitespace(c: char) -> bool {
    ||| ('\u{9}' <= c && c <= '\u{d}')
    ||| c == ' '
    ||| c == '\u{85}'
    ||| c == '\u{a0}'
    ||| c == '\u{1680}'
    ||| ('\u{2000}' <= c && c <= '\u{200a}')
    ||| c == '\u{2028}'
    ||| c == '\u{2029}'
    ||| c == '\u{202f}'
    ||| c == '\u{205f}'
    ||| c == '\u{3000}'
}

pub open spec fn not_whitespace() -> spec_fn(char) -> bool {
    |c: char| !is_whitespace(c)
}

pub open spec fn not_v() -> spec_fn(char) -> bool {
    |c: char| c != 'v'
}

/// The characters at which pre-release and build metadata start.
pub open spec fn is_suffix_start() -> spec_fn(char) -> bool {
    |c: char| c == '-' || c == '+'
}

pub open spec fn is_dot() -> spec_fn(char) -> bool {
    |c: char| c == '.'
}

/// `str::trim`: `s` without leading and trailing whitespace.
pub open spec fn trimmed(s: Seq<char>) -> Seq<char> {
    let i = first_index_where(s, not_whitespace());
    if i < 0 {
        Seq::empty()
    } else {
        s.subrange(i, last_index_where(s, not_whitespace()) + 1)
    }
}

/// `str::trim_start_matches('v')`.
pub open spec fn without_leading_v(s: Seq<char>) -> Seq<char> {
    let i = first_index_where(s, not_v());
    if i < 0 {
        Seq::empty()
    } else {
        s.skip(i)
    }
}

/// The part of `s` before the first `-` or `+`.
pub open spec fn version_core(s: Seq<char>) -> Seq<char> {
    let i = first_index_where(s, is_suffix_start());
    if i < 0 {
        s
    } else {
        s.take(i)
    }
}

/// The `k`-th field of `s` split at `.` (counting from 0), if there is one.
pub open spec fn dot_field(s: Seq<char>, k: nat) -> Option<Seq<char>>
    decreases k,
{
    let d = first_index_where(s, is_dot());
    if k == 0 {
        Some(if d < 0 { s } else { s.take(d) })
    } else if d < 0 {
        None
    } else {
        dot_field(s.skip(d + 1), (k - 1) as nat)
    }
}

pub open spec fn is_ascii_digit(c: char) -> bool {
    '0' <= c && c <= '9'
}

pub open spec fn all_ascii_digits(s: Seq<char>) -> bool {
    forall|i: int| 0 <= i < s.len() ==> #[trigger] is_ascii_digit(s[i])
}

/// The number that a string of decimal digits denotes.
pub open spec fn digits_value(s: Seq<char>) -> int
    decreases s.len(),
{
    if s.len() == 0 {
        0
    } else {
        digits_value(s.drop_last()) * 10 + (s.last() as int - '0' as int)
    }
}

/// `str::parse::<u64>`: an optional `+` before at least one ASCII digit,
/// denoting a value that fits in a `u64`.
pub open spec fn parse_u64(s: Seq<char>) -> Option<u64> {
    let digits = if s.len() >= 2 && s[0] == '+' {
        s.drop_first()
    } else {
        s
    };
    if digits.len() > 0 && all_ascii_digits(digits) && digits_value(digits) <= u64::MAX {
        Some(digits_value(digits) as u64)
    } else {
        None
    }
}

/// The value of a field: its number, or 0 when it is missing or no number.
pub open spec fn field_number(f: Option<Seq<char>>) -> u64 {
    match f {
        Some(t) => match parse_u64(t) {
            Some(n) => n,
            None => 0,
        },
        None => 0,
    }
}

/// The `(major, minor, patch)` triple of a version string.
pub open spec fn spec_version_tuple(version: Seq<char>) -> (u64, u64, u64) {
    let core = version_core(without_leading_v(trimmed(version)));
    (
        field_number(dot_field(core, 0)),
        field_number(dot_field(core, 1)),
        field_number(dot_field(core, 2)),
    )
}

/// Lexicographic `>` on triples.
pub open spec fn triple_gt(a: (u64, u64, u64), b: (u64, u64, u64)) -> bool {
    ||| a.0 > b.0
    ||| (a.0 == b.0 && a.1 > b.1)
    ||| (a.0 == b.0 && a.1 == b.1 && a.2 > b.2)
}

/// Whether `candidate` names a strictly later release than `current`.
pub open spec fn spec_is_newer(candidate: Seq<char>, current: Seq<char>) -> bool {
    triple_gt(spec_version_tuple(candidate), spec_version_tuple(current))
}

// ---------------------------------------------------------------------------
// Laws
// ---------------------------------------------------------------------------

/// No version is newer than itself.
pub proof fn lemma_is_newer_irreflexive(a: Seq<char>)
    ensures
        !spec_is_newer(a, a),
{
}

/// Of two versions, at most one is newer than the other.
pub proof fn lemma_is_newer_asymmetric(a: Seq<char>, b: Seq<char>)
    ensures
        spec_is_newer(a, b) ==> !spec_is_newer(b, a),
{
}

/// Newer-than is transitive.
pub proof fn lemma_is_newer_transitive(a: Seq<char>, b: Seq<char>, c: Seq<char>)
    requires
        spec_is_newer(a, b),
        spec_is_newer(b, c),
    ensures
        spec_is_newer(a, c),
{
}

/// Two versions either read as the same triple or one of them is newer.
pub proof fn lemma_is_newer_total(a: Seq<char>, b: Seq<char>)
    ensures
        spec_version_tuple(a) == spec_version_tuple(b) || spec_is_newer(a, b) || spec_is_newer(
            b,
            a,
        ),
{
}

proof fn lemma_skip_leading_v(x: Seq<char>)
    ensures
        without_leading_v(seq!['v'] + x) == without_leading_v(x),
{
    let w = seq!['v'] + x;
    assert(w.drop_first() == x);
    let r = first_index_where(x, not_v());
    lemma_first_index_where(x, not_v());
    if r >= 0 {
        assert(w.skip(r + 1) == x.skip(r));
    }
}

/// A leading `v` does not change the version a string names, as long as no
/// whitespace follows it.
pub proof fn lemma_v_prefix_ignored(s: Seq<char>)
    requires
        s.len() == 0 || !is_whitespace(s[0]),
    ensures
        spec_version_tuple(seq!['v'] + s) == spec_version_tuple(s),
{
    let w = seq!['v'] + s;
    assert(w[0] == 'v');
    lemma_first_index_is(w, not_whitespace(), 0);
    if s.len() == 0 {
        assert(w == seq!['v']);
        lemma_last_index_is(w, not_whitespace(), 0);
        assert(trimmed(w) == w);
        lemma_first_index_is(w, not_v(), -1);
        lemma_first_index_is(s, not_whitespace(), -1);
        assert(without_leading_v(trimmed(w)) == without_leading_v(trimmed(s)));
    } else {
        lemma_first_index_is(s, not_whitespace(), 0);
        lemma_last_index_where(s, not_whitespace());
        let l = last_index_where(s, not_whitespace());
        assert(l >= 0) by {
            if l < 0 {
                assert(!not_whitespace()(s[0]));
            }
        }
        assert forall|i: int| l + 1 < i < w.len() implies !not_whitespace()(#[trigger] w[i]) by {
            assert(w[i] == s[i - 1]);
        }
        assert(w[l + 1] == s[l]);
        lemma_last_index_is(w, not_whitespace(), l + 1);
        assert(trimmed(w) == seq!['v'] + trimmed(s));
        lemma_skip_leading_v(trimmed(s));
    }
}

/// Pre-release and build metadata are ignored: a clean version string `s`
/// (no surrounding whitespace, no `-` or `+`) followed by `-` or `+` and
/// anything at all names the same version as `s`.
pub proof fn lemma_suffix_ignored(s: Seq<char>, c: char, t: Seq<char>)
    requires
        s.len() > 0,
        !is_whitespace(s[0]),
        !is_whitespace(s.last()),
        forall|i: int| 0 <= i < s.len() ==> #[trigger] s[i] != '-' && s[i] != '+',
        c == '-' || c == '+',
    ensures
        spec_version_tuple(s + seq![c] + t) == spec_version_tuple(s),
{
    let w = s + seq![c] + t;
    let n = s.len();
    assert(w[0] == s[0]);
    assert(w[n as int] == c);
    // trimming keeps `s` whole in both strings
    lemma_first_index_is(w, not_whitespace(), 0);
    lemma_first_index_is(s, not_whitespace(), 0);
    lemma_last_index_is(s, not_whitespace(), n - 1);
    assert(trimmed(s) == s);
    lemma_last_index_where(w, not_whitespace());
    let lw = last_index_where(w, not_whitespace());
    assert(lw >= n) by {
        if lw < n {
            assert(!not_whitespace()(w[n as int]));
        }
    }
    let u = trimmed(w);
    assert(u == w.subrange(0, lw + 1));
    assert forall|i: int| 0 <= i < n implies #[trigger] u[i] == s[i] by {}
    assert(u[n as int] == c);
    // leading `v`s are the same in both
    lemma_first_index_where(s, not_v());
    let j0 = first_index_where(s, not_v());
    let j = if j0 < 0 {
        n as int
    } else {
        j0
    };
    assert forall|i: int| 0 <= i < u.len() && i < j implies !not_v()(#[trigger] u[i]) by {
        assert(u[i] == s[i]);
    }
    lemma_first_index_is(u, not_v(), j);
    let x = u.skip(j);
    assert(without_leading_v(u) == x);
    // the core ends where `c` stands
    assert forall|i: int| 0 <= i < x.len() && i < n - j implies !is_suffix_start()(
        #[trigger] x[i],
    ) by {
        assert(x[i] == s[i + j]);
    }
    assert(x[n - j] == c);
    lemma_first_index_is(x, is_suffix_start(), n - j);
    assert(version_core(x) == s.skip(j));
    let y = without_leading_v(s);
    assert(y == s.skip(j));
    assert forall|i: int| 0 <= i < y.len() implies !is_suffix_start()(#[trigger] y[i]) by {
        assert(y[i] == s[i + j]);
    }
    lemma_first_index_is(y, is_suffix_start(), -1);
    assert(version_core(y) == s.skip(j));
}

proof fn lemma_number_field(x: Seq<char>, rest: Seq<char>)
    requires
        x.len() > 0,
        all_ascii_digits(x),
        digits_value(x) <= u64::MAX,
        rest.len() == 0 || rest[0] == '.',
    ensures
        field_number(dot_field(x + rest, 0)) == digits_value(x) as u64,
{
    let s = x + rest;
    assert forall|i: int| 0 <= i < s.len() && i < x.len() implies !is_dot()(#[trigger] s[i]) by {
        assert(s[i] == x[i]);
        assert(is_ascii_digit(x[i]));
    }
    if rest.len() == 0 {
        assert(s == x);
        lemma_first_index_is(s, is_dot(), -1);
    } else {
        assert(s[x.len() as int] == '.');
        lemma_first_index_is(s, is_dot(), x.len() as int);
        assert(s.take(x.len() as int) == x);
    }
    assert(is_ascii_digit(x[0]));
}

/// A plain `major.minor.patch` version of decimal numbers reads as those
/// three numbers.
pub proof fn lemma_plain_version(x: Seq<char>, y: Seq<char>, z: Seq<char>)
    requires
        x.len() > 0 && y.len() > 0 && z.len() > 0,
        all_ascii_digits(x) && all_ascii_digits(y) && all_ascii_digits(z),
        digits_value(x) <= u64::MAX,
        digits_value(y) <= u64::MAX,
        digits_value(z) <= u64::MAX,
    ensures
        spec_version_tuple(x + seq!['.'] + y + seq!['.'] + z) == (
            digits_value(x) as u64,
            digits_value(y) as u64,
            digits_value(z) as u64,
        ),
{
    let yz = y + seq!['.'] + z;
    let s = x + seq!['.'] + yz;
    assert(x + seq!['.'] + y + seq!['.'] + z == s);
    let n = s.len();
    // every character is a digit or a dot
    assert forall|i: int| 0 <= i < n implies is_ascii_digit(#[trigger] s[i]) || s[i] == '.' by {
        if i < x.len() {
            assert(s[i] == x[i]);
        } else if i > x.len() && i < x.len() + 1 + y.len() {
            assert(s[i] == y[i - x.len() - 1]);
        } else if i > x.len() + 1 + y.len() {
            assert(s[i] == z[i - x.len() - 2 - y.len()]);
        }
    }
    assert(is_ascii_digit(x[0]) && s[0] == x[0]);
    assert(is_ascii_digit(z[z.len() - 1]) && s[n - 1] == z[z.len() - 1]);
    lemma_first_index_is(s, not_whitespace(), 0);
    assert forall|i: int| n - 1 < i < n implies !not_whitespace()(#[trigger] s[i]) by {}
    lemma_last_index_is(s, not_whitespace(), n - 1);
    assert(trimmed(s) == s);
    lemma_first_index_is(s, not_v(), 0);
    assert(without_leading_v(s) == s);
    assert forall|i: int| 0 <= i < n implies !is_suffix_start()(#[trigger] s[i]) by {
        assert(is_ascii_digit(s[i]) || s[i] == '.');
    }
    lemma_first_index_is(s, is_suffix_start(), -1);
    assert(version_core(s) == s);
    // the three fields
    lemma_number_field(x, seq!['.'] + yz);
    assert(x + (seq!['.'] + yz) == s);
    assert forall|i: int| 0 <= i < s.len() && i < x.len() implies !is_dot()(#[trigger] s[i]) by {
        assert(s[i] == x[i]);
        assert(is_ascii_digit(x[i]));
    }
    assert(s[x.len() as int] == '.');
    lemma_first_index_is(s, is_dot(), x.len() as int);
    assert(s.skip(x.len() as int + 1) == yz);
    lemma_dot_field_step(s, 0);
    lemma_dot_field_step(s, 1);
    lemma_number_field(y, seq!['.'] + z);
    assert(y + (seq!['.'] + z) == yz);
    assert forall|i: int| 0 <= i < yz.len() && i < y.len() implies !is_dot()(#[trigger] yz[i]) by {
        assert(yz[i] == y[i]);
        assert(is_ascii_digit(y[i]));
    }
    assert(yz[y.len() as int] == '.');
    lemma_first_index_is(yz, is_dot(), y.len() as int);
    assert(yz.skip(y.len() as int + 1) == z);
    lemma_dot_field_step(yz, 0);
    lemma_number_field(z, Seq::empty());
    assert(z + Seq::<char>::empty() == z);
}

proof fn lemma_digits_value_nonneg(s: Seq<char>)
    requires
        all_ascii_digits(s),
    ensures
        digits_value(s) >= 0,
    decreases s.len(),
{
    if s.len() > 0 {
        let t = s.drop_last();
        assert forall|i: int| 0 <= i < t.len() implies #[trigger] is_ascii_digit(t[i]) by {
            assert(t[i] == s[i]);
        }
        lemma_digits_value_nonneg(t);
        assert(is_ascii_digit(s[s.len() - 1]));
    }
}

/// Newer-than compares the fields in order: the first field in which the two
/// versions differ decides, and the larger number there is the newer release.
pub proof fn lemma_is_newer_by_fields(a: Seq<char>, b: Seq<char>)
    ensures
        ({
            let x = spec_version_tuple(a);
            let y = spec_version_tuple(b);
            &&& x.0 != y.0 ==> (spec_is_newer(a, b) <==> x.0 > y.0)
            &&& x.0 == y.0 && x.1 != y.1 ==> (spec_is_newer(a, b) <==> x.1 > y.1)
            &&& x.0 == y.0 && x.1 == y.1 ==> (spec_is_newer(a, b) <==> x.2 > y.2)
        }),
{
}

/// Between two plain `major.minor.patch` versions of decimal numbers, the
/// candidate is newer exactly when its numbers are larger in the usual
/// lexicographic sense: a larger major, or the same major and a larger minor,
/// or the same major and minor and a larger patch.
pub proof fn lemma_plain_versions_compare_numerically(
    x: Seq<char>,
    y: Seq<char>,
    z: Seq<char>,
    p: Seq<char>,
    q: Seq<char>,
    r: Seq<char>,
)
    requires
        x.len() > 0 && y.len() > 0 && z.len() > 0,
        p.len() > 0 && q.len() > 0 && r.len() > 0,
        all_ascii_digits(x) && all_ascii_digits(y) && all_ascii_digits(z),
        all_ascii_digits(p) && all_ascii_digits(q) && all_ascii_digits(r),
        digits_value(x) <= u64::MAX && digits_value(y) <= u64::MAX && digits_value(z) <= u64::MAX,
        digits_value(p) <= u64::MAX && digits_value(q) <= u64::MAX && digits_value(r) <= u64::MAX,
    ensures
        spec_is_newer(x + seq!['.'] + y + seq!['.'] + z, p + seq!['.'] + q + seq!['.'] + r) <==> (
        digits_value(x) > digits_value(p) || (digits_value(x) == digits_value(p) && digits_value(y)
            > digits_value(q)) || (digits_value(x) == digits_value(p) && digits_value(y)
            == digits_value(q) && digits_value(z) > digits_value(r))),
{
    lemma_plain_version(x, y, z);
    lemma_plain_version(p, q, r);
    lemma_digits_value_nonneg(x);
    lemma_digits_value_nonneg(y);
    lemma_digits_value_nonneg(z);
    lemma_digits_value_nonneg(p);
    lemma_digits_value_nonneg(q);
    lemma_digits_value_nonneg(r);
    lemma_is_newer_by_fields(x + seq!['.'] + y + seq!['.'] + z, p + seq!['.'] + q + seq!['.'] + r);
}

// ---------------------------------------------------------------------------
// Implementation
// ---------------------------------------------------------------------------

enum CharClass {
    NotWhitespace,
    NotV,
    SuffixStart,
    Dot,
}

spec fn class_pred(k: CharClass) -> spec_fn(char) -> bool {
    match k {
        CharClass::NotWhitespace => not_whitespace(),
        CharClass::NotV => not_v(),
        CharClass::SuffixStart => is_suffix_start(),
        CharClass::Dot => is_dot(),
    }
}

fn is_whitespace_char(c: char) -> (b: bool)
    ensures
        b == is_whitespace(c),
{
    ('\u{9}' <= c && c <= '\u{d}') || c == ' ' || c == '\u{85}' || c == '\u{a0}' || c
        == '\u{1680}' || ('\u{2000}' <= c && c <= '\u{200a}') || c == '\u{2028}' || c
        == '\u{2029}' || c == '\u{202f}' || c == '\u{205f}' || c == '\u{3000}'
}

fn class_test(k: &CharClass, c: char) -> (b: bool)
    ensures
        b == class_pred(*k)(c),
{
    match k {
        CharClass::NotWhitespace => !is_whitespace_char(c),
        CharClass::NotV => c != 'v',
        CharClass::SuffixStart => c == '-' || c == '+',
        CharClass::Dot => c == '.',
    }
}

/// The first index in `lo..hi` whose character is of class `k`, or `hi`.
fn scan_first(v: &Vec<char>, lo: usize, hi: usize, k: CharClass) -> (i: usize)
    requires
        lo <= hi <= v.len(),
    ensures
        lo <= i <= hi,
        first_index_where(v@.subrange(lo as int, hi as int), class_pred(k)) == if i == hi {
            -1
        } else {
            i - lo
        },
{
    let ghost s = v@.subrange(lo as int, hi as int);
    let mut i = lo;
    while i < hi
        invariant
            lo <= i <= hi <= v.len(),
            s == v@.subrange(lo as int, hi as int),
            forall|j: int| 0 <= j < i - lo ==> !class_pred(k)(#[trigger] s[j]),
        decreases hi - i,
    {
        if class_test(&k, v[i]) {
            assert(s[i - lo] == v@[i as int]);
            proof {
                lemma_first_index_is(s, class_pred(k), i - lo);
            }
            return i;
        }
        assert(s[i - lo] == v@[i as int]);
        i = i + 1;
    }
    proof {
        lemma_first_index_is(s, class_pred(k), -1);
    }
    hi
}

/// One past the last non-whitespace index in `lo..hi`, or `lo`.
fn scan_last_non_whitespace(v: &Vec<char>, lo: usize, hi: usize) -> (e: usize)
    requires
        lo <= hi <= v.len(),
    ensures
        lo <= e <= hi,
        last_index_where(v@.subrange(lo as int, hi as int), not_whitespace()) == e - lo - 1,
{
    let ghost s = v@.subrange(lo as int, hi as int);
    let mut e = hi;
    while e > lo
        invariant
            lo <= e <= hi <= v.len(),
            s == v@.subrange(lo as int, hi as int),
            forall|j: int| e - lo <= j < hi - lo ==> !not_whitespace()(#[trigger] s[j]),
        decreases e - lo,
    {
        assert(s[e - 1 - lo] == v@[e - 1]);
        if !is_whitespace_char(v[e - 1]) {
            proof {
                lemma_last_index_is(s, not_whitespace(), e - 1 - lo);
            }
            return e;
        }
        e = e - 1;
    }
    proof {
        lemma_last_index_is(s, not_whitespace(), -1);
    }
    lo
}

/// `str::parse::<u64>` on the characters `a..b` of `v`.
fn parse_u64_range(v: &Vec<char>, a: usize, b: usize) -> (r: Option<u64>)
    requires
        a <= b <= v.len(),
    ensures
        r == parse_u64(v@.subrange(a as int, b as int)),
{
    let ghost t = v@.subrange(a as int, b as int);
    let mut s = a;
    if b - a >= 2 && v[a] == '+' {
        s = a + 1;
    }
    let ghost digits = v@.subrange(s as int, b as int);
    assert(digits == if t.len() >= 2 && t[0] == '+' {
        t.drop_first()
    } else {
        t
    });
    if s == b {
        return None;
    }
    let mut acc: u64 = 0;
    let mut overflowed = false;
    let mut i = s;
    while i < b
        invariant
            a <= s <= i <= b <= v.len(),
            digits == v@.subrange(s as int, b as int),
            t == v@.subrange(a as int, b as int),
            digits == if t.len() >= 2 && t[0] == '+' {
                t.drop_first()
            } else {
                t
            },
            forall|j: int| 0 <= j < i - s ==> #[trigger] is_ascii_digit(digits[j]),
            !overflowed ==> acc == digits_value(v@.subrange(s as int, i as int)),
            overflowed ==> digits_value(v@.subrange(s as int, i as int)) > u64::MAX,
        decreases b - i,
    {
        let c = v[i];
        assert(digits[i - s] == c);
        if !('0' <= c && c <= '9') {
            assert(!is_ascii_digit(digits[i - s]));
            assert(!all_ascii_digits(digits));
            return None;
        }
        let ghost prefix = v@.subrange(s as int, i + 1);
        assert(prefix.drop_last() == v@.subrange(s as int, i as int));
        assert(prefix.last() == c);
        let d = (c as u32 - '0' as u32) as u64;
        if !overflowed {
            match acc.checked_mul(10) {
                Some(m) => match m.checked_add(d) {
                    Some(n) => {
                        acc = n;
                    },
                    None => {
                        overflowed = true;
                    },
                },
                None => {
                    overflowed = true;
                },
            }
        }
        i = i + 1;
    }
    assert(v@.subrange(s as int, b as int) == digits);
    assert(all_ascii_digits(digits));
    if overflowed {
        None
    } else {
        Some(acc)
    }
}

/// The value of the `.`-separated field that starts at `a` and ends at the
/// next `.` or at `b`, and where that field ends.
fn field_at(v: &Vec<char>, a: usize, b: usize) -> (r: (u64, usize))
    requires
        a <= b <= v.len(),
    ensures
        a <= r.1 <= b,
        ({
            let s = v@.subrange(a as int, b as int);
            let d = first_index_where(s, is_dot());
            &&& r.0 == field_number(dot_field(s, 0))
            &&& r.1 == if d < 0 {
                b as int
            } else {
                a + d
            }
        }),
{
    let ghost s = v@.subrange(a as int, b as int);
    let e = scan_first(v, a, b, CharClass::Dot);
    assert(class_pred(CharClass::Dot) == is_dot());
    let n = parse_u64_range(v, a, e);
    assert(v@.subrange(a as int, e as int) == if e == b {
        s
    } else {
        s.take(e - a)
    });
    let value = match n {
        Some(x) => x,
        None => 0,
    };
    (value, e)
}

/// Skipping past the first dot moves on to the next field.
proof fn lemma_dot_field_step(s: Seq<char>, k: nat)
    requires
        first_index_where(s, is_dot()) >= 0,
    ensures
        dot_field(s, k + 1) == dot_field(s.skip(first_index_where(s, is_dot()) + 1), k),
{
}

proof fn lemma_dot_field_none(s: Seq<char>, k: nat)
    requires
        first_index_where(s, is_dot()) < 0,
        k > 0,
    ensures
        dot_field(s, k) == None::<Seq<char>>,
{
}

/// The bounds of `v` without leading and trailing whitespace.
fn trim_bounds(v: &Vec<char>) -> (r: (usize, usize))
    ensures
        r.0 <= r.1 <= v.len(),
        trimmed(v@) == v@.subrange(r.0 as int, r.1 as int),
{
    let n = v.len();
    let ghost s = v@;
    assert(v@.subrange(0, n as int) == s);
    let lo = scan_first(v, 0, n, CharClass::NotWhitespace);
    assert(class_pred(CharClass::NotWhitespace) == not_whitespace());
    let hi = scan_last_non_whitespace(v, 0, n);
    proof {
        lemma_first_index_where(s, not_whitespace());
        lemma_last_index_where(s, not_whitespace());
        if lo < n {
            assert(hi > lo);
        } else {
            assert(hi == 0) by {
                if hi > 0 {
                    assert(!not_whitespace()(s[hi - 1]));
                }
            }
        }
    }
    // the trimmed string is `lo..hi` (empty when there is no text at all)
    let start = if lo < hi {
        lo
    } else {
        hi
    };
    (start, hi)
}

/// `s` without leading and trailing whitespace (`str::trim`).
pub fn trim(s: &str) -> (t: String)
    ensures
        t@ == trimmed(s@),
{
    let v = chars_of(s);
    let (lo, hi) = trim_bounds(&v);
    let mut out: Vec<char> = Vec::new();
    let mut i = lo;
    while i < hi
        invariant
            lo <= i <= hi <= v.len(),
            out@ == v@.subrange(lo as int, i as int),
        decreases hi - i,
    {
        out.push(v[i]);
        i = i + 1;
    }
    string_from_chars(out.as_slice())
}

/// The bounds of the part of `v` that is split into fields: trimmed, without
/// leading `v`s, and cut before the first `-` or `+`.
fn core_bounds(v: &Vec<char>) -> (r: (usize, usize))
    ensures
        r.0 <= r.1 <= v.len(),
        version_core(without_leading_v(trimmed(v@))) == v@.subrange(r.0 as int, r.1 as int),
{
    let ghost s = v@;
    let (start, hi) = trim_bounds(v);
    let k = scan_first(v, start, hi, CharClass::NotV);
    assert(class_pred(CharClass::NotV) == not_v());
    assert(without_leading_v(trimmed(s)) == v@.subrange(k as int, hi as int));
    let e = scan_first(v, k, hi, CharClass::SuffixStart);
    assert(class_pred(CharClass::SuffixStart) == is_suffix_start());
    (k, e)
}

/// The values of the first three fields of the characters `k..e` of `v`.
fn first_three_fields(v: &Vec<char>, k: usize, e: usize) -> (t: (u64, u64, u64))
    requires
        k <= e <= v.len(),
    ensures
        ({
            let core = v@.subrange(k as int, e as int);
            t == (
                field_number(dot_field(core, 0)),
                field_number(dot_field(core, 1)),
                field_number(dot_field(core, 2)),
            )
        }),
{
    let ghost core = v@.subrange(k as int, e as int);
    proof {
        lemma_first_index_where(core, is_dot());
    }
    let (major, d0) = field_at(v, k, e);
    if d0 == e {
        proof {
            lemma_dot_field_none(core, 1);
            lemma_dot_field_none(core, 2);
        }
        return (major, 0, 0);
    }
    let ghost core1 = v@.subrange(d0 + 1, e as int);
    proof {
        lemma_dot_field_step(core, 0);
        lemma_dot_field_step(core, 1);
        assert(core.skip(d0 - k + 1) == core1);
        lemma_first_index_where(core1, is_dot());
    }
    let (minor, d1) = field_at(v, d0 + 1, e);
    if d1 == e {
        proof {
            lemma_dot_field_none(core1, 1);
        }
        return (major, minor, 0);
    }
    let ghost core2 = v@.subrange(d1 + 1, e as int);
    proof {
        lemma_dot_field_step(core1, 0);
        assert(core1.skip(d1 - (d0 + 1) + 1) == core2);
    }
    let (patch, _) = field_at(v, d1 + 1, e);
    (major, minor, patch)
}

/// The `(major, minor, patch)` triple of a version string; see the module
/// documentation for how it is read.
pub fn version_tuple(version: &str) -> (t: (u64, u64, u64))
    ensures
        t == spec_version_tuple(version@),
{
    let v = chars_of(version);
    let (k, e) = core_bounds(&v);
    first_three_fields(&v, k, e)
}

/// Whether `candidate` names a strictly later release than `current`,
/// comparing `(major, minor, patch)` lexicographically.
pub fn is_newer(candidate: &str, current: &str) -> (b: bool)
    ensures
        b == spec_is_newer(candidate@, current@),
{
    let a = version_tuple(candidate);
    let c = version_tuple(current);
    a.0 > c.0 || (a.0 == c.0 && a.1 > c.1) || (a.0 == c.0 && a.1 == c.1 && a.2 > c.2)
}

} // verus!
