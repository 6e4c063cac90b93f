//! Character-level text operations with their mathematical meaning.
//!
//! Every operation works on `Seq<char>` in its specification; strings are
//! turned into character vectors once, processed, and turned back.
use vstd::prelude::*;

verus! {

// ---------------------------------------------------------------------------
// Specifications
// ---------------------------------------------------------------------------

/// Unicode `White_Space` property (the set `char::is_whitespace` accepts).
pub open spec fn is_ws(c: char) -> bool {
    ||| ('\t' <= c && c <= '\r')
    ||| c == ' '
    ||| c == '\u{85}'
    ||| c == '\u{a0}'
    ||| c == '\u{1680}'
    ||| ('\u{2000}' <= c && c <= '\u{200a}')
    ||| c == '\u{2028}'
    ||| c == '\u{2029}'
    ||| c == '\u{202f}'
    ||| c == '\u{205f}'
    ||| c == '\u{3000}'
}

/// `pat` occurs in `hay` starting at index `i`.
pub open spec fn occurs_at(hay: Seq<char>, pat: Seq<char>, i: int) -> bool {
    0 <= i && i + pat.len() <= hay.len() && hay.subrange(i, i + pat.len()) == pat
}

/// Index of the first occurrence of `pat` in `hay` at or after `from`.
pub open spec fn find_from(hay: Seq<char>, pat: Seq<char>, from: int) -> Option<int>
    decreases hay.len() - from + 1,
{
    if from < 0 || from + pat.len() > hay.len() {
        None
    } else if occurs_at(hay, pat, from) {
        Some(from)
    } else {
        find_from(hay, pat, from + 1)
    }
}

/// Index of the first occurrence of `pat` in `hay`.
pub open spec fn find(hay: Seq<char>, pat: Seq<char>) -> Option<int> {
    find_from(hay, pat, 0)
}

/// `hay` contains `pat` somewhere.
pub open spec fn contains(hay: Seq<char>, pat: Seq<char>) -> bool {
    find(hay, pat) is Some
}

pub open spec fn starts_with(s: Seq<char>, p: Seq<char>) -> bool {
    p.len() <= s.len() && s.subrange(0, p.len() as int) == p
}

pub open spec fn ends_with(s: Seq<char>, p: Seq<char>) -> bool {
    p.len() <= s.len() && s.subrange(s.len() - p.len(), s.len() as int) == p
}

/// Leading whitespace removed.
pub open spec fn trim_start(s: Seq<char>) -> Seq<char>
    decreases s.len(),
{
    if s.len() > 0 && is_ws(s[0]) {
        trim_start(s.drop_first())
    } else {
        s
    }
}

/// Trailing whitespace removed.
pub open spec fn trim_end(s: Seq<char>) -> Seq<char>
    decreases s.len(),
{
    if s.len() > 0 && is_ws(s.last()) {
        trim_end(s.drop_last())
    } else {
        s
    }
}

/// Leading and trailing whitespace removed (`str::trim`).
pub open spec fn trim(s: Seq<char>) -> Seq<char> {
    trim_end(trim_start(s))
}

/// Every non-overlapping occurrence of a non-empty `pat`, scanned left to
/// right, replaced by `with` (`str::replace`).
pub open spec fn replace_all(s: Seq<char>, pat: Seq<char>, with: Seq<char>) -> Seq<char>
    decreases s.len(),
{
    if pat.len() == 0 {
        s
    } else {
        proof {
            lemma_find_from_in_range(s, pat, 0);
        }
        match find(s, pat) {
            None => s,
            Some(i) => s.subrange(0, i) + with + replace_all(
                s.subrange(i + pat.len(), s.len() as int),
                pat,
                with,
            ),
        }
    }
}

/// Number of non-overlapping occurrences of `pat` scanned left to right
/// (`str::matches(..).count()`); an empty pattern matches at every one of
/// the `len + 1` boundaries.
pub open spec fn count_matches(s: Seq<char>, pat: Seq<char>) -> nat
    decreases s.len(),
{
    if pat.len() == 0 {
        s.len() + 1
    } else {
        proof {
            lemma_find_from_in_range(s, pat, 0);
        }
        match find(s, pat) {
            None => 0,
            Some(i) => 1 + count_matches(s.subrange(i + pat.len(), s.len() as int), pat),
        }
    }
}

/// The first occurrence of `pat` replaced by `with` (`str::replacen(pat, with, 1)`).
pub open spec fn replace_first(s: Seq<char>, pat: Seq<char>, with: Seq<char>) -> Seq<char> {
    match find(s, pat) {
        None => s,
        Some(i) => s.subrange(0, i) + with + s.subrange(i + pat.len(), s.len() as int),
    }
}

/// Length of the longest prefix of `s` without whitespace.
pub open spec fn word_len(s: Seq<char>) -> nat
    decreases s.len(),
{
    if s.len() == 0 || is_ws(s[0]) {
        0
    } else {
        1 + word_len(s.drop_first())
    }
}

/// Whitespace-separated words (`str::split_whitespace`).
pub open spec fn words(s: Seq<char>) -> Seq<Seq<char>>
    decreases s.len(),
{
    if s.len() == 0 {
        seq![]
    } else if is_ws(s[0]) {
        words(s.drop_first())
    } else {
        let n = word_len(s);
        proof {
            lemma_word_len_bound(s);
        }
        seq![s.subrange(0, n as int)] + words(s.subrange(n as int, s.len() as int))
    }
}

/// The pieces of `parts` with `sep` between neighbours (`[..].join(sep)`).
pub open spec fn join(parts: Seq<Seq<char>>, sep: Seq<char>) -> Seq<char>
    decreases parts.len(),
{
    if parts.len() == 0 {
        seq![]
    } else if parts.len() == 1 {
        parts[0]
    } else {
        join(parts.drop_last(), sep) + sep + parts.last()
    }
}

// ---------------------------------------------------------------------------
// Lemmas
// ---------------------------------------------------------------------------

pub proof fn lemma_word_len_bound(s: Seq<char>)
    ensures
        word_len(s) <= s.len(),
        forall|j: int| 0 <= j < word_len(s) ==> !is_ws(#[trigger] s[j]),
        word_len(s) < s.len() ==> is_ws(s[word_len(s) as int]),
    decreases s.len(),
{
    if s.len() > 0 && !is_ws(s[0]) {
        lemma_word_len_bound(s.drop_first());
        assert forall|j: int| 0 <= j < word_len(s) implies !is_ws(#[trigger] s[j]) by {
            if j > 0 {
                assert(s[j] == s.drop_first()[j - 1]);
            }
        }
        if word_len(s) < s.len() {
            assert(s[word_len(s) as int] == s.drop_first()[word_len(s) - 1]);
        }
    }
}

/// A word starting at `i` and running to the first whitespace at or after `i`.
pub proof fn lemma_word_len_skip(s: Seq<char>, i: int, k: int)
    requires
        0 <= i <= k <= s.len(),
        forall|j: int| i <= j < k ==> !is_ws(#[trigger] s[j]),
        k == s.len() || is_ws(s[k]),
    ensures
        word_len(s.subrange(i, s.len() as int)) == k - i,
    decreases k - i,
{
    let t = s.subrange(i, s.len() as int);
    if i < k {
        assert(t[0] == s[i]);
        lemma_word_len_skip(s, i + 1, k);
        assert(t.drop_first() =~= s.subrange(i + 1, s.len() as int));
    } else {
        if t.len() > 0 {
            assert(t[0] == s[i]);
        }
    }
}

pub proof fn lemma_find_from_in_range(hay: Seq<char>, pat: Seq<char>, from: int)
    requires
        from >= 0,
    ensures
        find_from(hay, pat, from) matches Some(i) ==> from <= i && i + pat.len() <= hay.len()
            && occurs_at(hay, pat, i),
        find_from(hay, pat, from) matches Some(i) ==> forall|j: int|
            from <= j < i ==> !occurs_at(hay, pat, j),
        find_from(hay, pat, from) is None ==> forall|j: int|
            from <= j ==> !occurs_at(hay, pat, j),
    decreases hay.len() - from + 1,
{
    if from < 0 || from + pat.len() > hay.len() {
    } else if occurs_at(hay, pat, from) {
    } else {
        lemma_find_from_in_range(hay, pat, from + 1);
    }
}

/// `c` occurs in `p` only as its first character.
pub open spec fn leads_only(p: Seq<char>, c: char) -> bool {
    p.len() > 0 && p[0] == c && forall|k: int| 1 <= k < p.len() ==> p[k] != c
}

/// `c` occurs nowhere in `s`.
pub open spec fn lacks(s: Seq<char>, c: char) -> bool {
    forall|i: int| 0 <= i < s.len() ==> s[i] != c
}

/// Removing every occurrence of `pat` from a text in which each `c` (the
/// first character of `pat` and of `q`) begins `pat` or `q`, where `c`
/// appears in `q` only at its start, leaves a text in which each `c` begins
/// `q`.
pub proof fn lemma_remove_keeps_other(s: Seq<char>, pat: Seq<char>, q: Seq<char>)
    requires
        pat.len() > 0,
        leads_only(q, pat[0]),
        forall|i: int|
            0 <= i < s.len() && s[i] == pat[0] ==> occurs_at(s, pat, i) || occurs_at(s, q, i),
    ensures
        ({
            let r = replace_all(s, pat, seq![]);
            forall|i: int| 0 <= i < r.len() && r[i] == pat[0] ==> occurs_at(r, q, i)
        }),
    decreases s.len(),
{
    let c = pat[0];
    lemma_find_from_in_range(s, pat, 0);
    let r = replace_all(s, pat, seq![]);
    match find(s, pat) {
        None => {
            assert(r == s);
        },
        Some(k) => {
            let rest = s.subrange(k + pat.len(), s.len() as int);
            assert forall|i: int|
                0 <= i < rest.len() && rest[i] == c implies occurs_at(rest, pat, i) || occurs_at(rest, q, i) by {
                let j = i + k + pat.len();
                assert(s[j] == rest[i]);
                if occurs_at(s, pat, j) {
                    assert(rest.subrange(i, i + pat.len()) =~= s.subrange(j, j + pat.len()));
                } else {
                    assert(rest.subrange(i, i + q.len()) =~= s.subrange(j, j + q.len()));
                }
            }
            lemma_remove_keeps_other(rest, pat, q);
            let rr = replace_all(rest, pat, seq![]);
            let pre = s.subrange(0, k);
            assert(r == pre + Seq::<char>::empty() + rr);
            assert(r =~= pre + rr);
            assert forall|i: int| 0 <= i < r.len() && r[i] == c implies occurs_at(r, q, i) by {
                if i < k {
                    assert(s[i] == r[i]);
                    assert(!occurs_at(s, pat, i));
                    assert(occurs_at(s, q, i));
                    if i + q.len() > k {
                        assert(s.subrange(i, i + q.len())[k - i] == s[k]);
                        assert(s.subrange(k, k + pat.len())[0] == s[k]);
                    }
                    assert(r.subrange(i, i + q.len()) =~= s.subrange(i, i + q.len()));
                } else {
                    let i2 = i - k;
                    assert(rr[i2] == r[i]);
                    assert(r.subrange(i, i + q.len()) =~= rr.subrange(i2, i2 + q.len()));
                }
            }
        },
    }
}

/// Removing every occurrence of `pat` from a text in which each occurrence
/// of `pat`'s first character begins `pat` leaves no such character.
pub proof fn lemma_remove_leaves_no_lead(s: Seq<char>, pat: Seq<char>)
    requires
        pat.len() > 0,
        forall|i: int| 0 <= i < s.len() && s[i] == pat[0] ==> occurs_at(s, pat, i),
    ensures
        lacks(replace_all(s, pat, seq![]), pat[0]),
    decreases s.len(),
{
    let c = pat[0];
    lemma_find_from_in_range(s, pat, 0);
    let r = replace_all(s, pat, seq![]);
    match find(s, pat) {
        None => {
            assert(r == s);
        },
        Some(k) => {
            let rest = s.subrange(k + pat.len(), s.len() as int);
            assert forall|i: int| 0 <= i < rest.len() && rest[i] == c implies occurs_at(rest, pat, i) by {
                let j = i + k + pat.len();
                assert(s[j] == rest[i]);
                assert(rest.subrange(i, i + pat.len()) =~= s.subrange(j, j + pat.len()));
            }
            lemma_remove_leaves_no_lead(rest, pat);
            let rr = replace_all(rest, pat, seq![]);
            let pre = s.subrange(0, k);
            assert(r == pre + Seq::<char>::empty() + rr);
            assert(r =~= pre + rr);
            assert forall|i: int| 0 <= i < r.len() implies r[i] != c by {
                if i < k {
                    assert(s[i] == r[i]);
                } else {
                    assert(rr[i - k] == r[i]);
                }
            }
        },
    }
}

/// A text without any character of `pat`'s first kind holds no occurrence
/// of `pat`, and removing `pat` leaves it as it is.
pub proof fn lemma_remove_absent(s: Seq<char>, pat: Seq<char>)
    requires
        pat.len() > 0,
        lacks(s, pat[0]),
    ensures
        !contains(s, pat),
        replace_all(s, pat, seq![]) == s,
{
    lemma_find_from_in_range(s, pat, 0);
    if find(s, pat) is Some {
        let i = find(s, pat)->0;
        assert(s.subrange(i, i + pat.len())[0] == s[i]);
    }
}

/// Trimming adds no character.
pub proof fn lemma_trim_lacks(s: Seq<char>, c: char)
    requires
        lacks(s, c),
    ensures
        lacks(trim(s), c),
{
    lemma_trim_start_lacks(s, c);
    lemma_trim_end_lacks(trim_start(s), c);
}

proof fn lemma_trim_start_lacks(s: Seq<char>, c: char)
    requires
        lacks(s, c),
    ensures
        lacks(trim_start(s), c),
    decreases s.len(),
{
    if s.len() > 0 && is_ws(s[0]) {
        let a = s.drop_first();
        assert forall|i: int| 0 <= i < a.len() implies a[i] != c by {
            assert(a[i] == s[i + 1]);
        }
        lemma_trim_start_lacks(a, c);
    }
}

proof fn lemma_trim_end_lacks(s: Seq<char>, c: char)
    requires
        lacks(s, c),
    ensures
        lacks(trim_end(s), c),
    decreases s.len(),
{
    if s.len() > 0 && is_ws(s.last()) {
        let b = s.drop_last();
        assert forall|i: int| 0 <= i < b.len() implies b[i] != c by {
            assert(b[i] == s[i]);
        }
        lemma_trim_end_lacks(b, c);
    }
}

/// The join of a list grows by the separator and the new piece.
pub proof fn lemma_join_push(parts: Seq<Seq<char>>, sep: Seq<char>, p: Seq<char>)
    ensures
        join(parts.push(p), sep) == if parts.len() == 0 {
            p
        } else {
            join(parts, sep) + sep + p
        },
{
    assert(parts.push(p).drop_last() =~= parts);
}

// ---------------------------------------------------------------------------
// Executable operations
// ---------------------------------------------------------------------------

/// The characters of `s`, in order.
pub fn chars_of(s: &str) -> (r: Vec<char>)
    ensures
        r@ == s@,
{
    let mut v: Vec<char> = Vec::new();
    for c in it: s.chars()
        invariant
            v@ == it.seq().take(it.index() as int),
    {
        v.push(c);
    }
    proof {
        broadcast use vstd::string::axiom_spec_iter;

    }
    v
}

/// Collects characters into a `String` (std's `FromIterator<char> for String`,
/// which appends each character in order).
#[verifier::external_body]
pub fn string_from_chars(v: &[char]) -> (r: String)
    ensures
        r@ == v@,
{
    v.iter().collect::<String>()
}

/// `char::is_whitespace`.
pub fn is_whitespace(c: char) -> (r: bool)
    ensures
        r == is_ws(c),
{
    ('\t' <= c && c <= '\r') || c == ' ' || c == '\u{85}' || c == '\u{a0}' || c == '\u{1680}' || (
    '\u{2000}' <= c && c <= '\u{200a}') || c == '\u{2028}' || c == '\u{2029}' || c == '\u{202f}'
        || c == '\u{205f}' || c == '\u{3000}'
}

/// A copy of `v[from..to]`.
pub fn slice_chars(v: &Vec<char>, from: usize, to: usize) -> (r: Vec<char>)
    requires
        from <= to <= v.len(),
    ensures
        r@ == v@.subrange(from as int, to as int),
{
    let mut out: Vec<char> = Vec::new();
    let mut i = from;
    while i < to
        invariant
            from <= i <= to <= v.len(),
            out@ == v@.subrange(from as int, i as int),
        decreases to - i,
    {
        out.push(v[i]);
        i = i + 1;
    }
    out
}

/// `out` extended by `v[from..to]`.
pub fn extend_chars(out: &mut Vec<char>, v: &Vec<char>, from: usize, to: usize)
    requires
        from <= to <= v.len(),
    ensures
        final(out)@ == old(out)@ + v@.subrange(from as int, to as int),
{
    let mut i = from;
    while i < to
        invariant
            from <= i <= to <= v.len(),
            out@ == old(out)@ + v@.subrange(from as int, i as int),
        decreases to - i,
    {
        out.push(v[i]);
        i = i + 1;
        assert(v@.subrange(from as int, i as int) =~= v@.subrange(from as int, i - 1).push(
            v@[i - 1],
        ));
    }
}

/// Whether `pat` occurs in `hay` at index `i`.
pub fn matches_at(hay: &Vec<char>, pat: &Vec<char>, i: usize) -> (r: bool)
    ensures
        r == occurs_at(hay@, pat@, i as int),
{
    if i > hay.len() || pat.len() > hay.len() - i {
        return false;
    }
    let mut k: usize = 0;
    while k < pat.len()
        invariant
            i + pat.len() <= hay.len(),
            k <= pat.len(),
            forall|j: int| 0 <= j < k ==> hay@[i + j] == pat@[j],
        decreases pat.len() - k,
    {
        if hay[i + k] != pat[k] {
            assert(hay@.subrange(i as int, i + pat.len())[k as int] != pat@[k as int]);
            return false;
        }
        k = k + 1;
    }
    assert(hay@.subrange(i as int, i + pat.len()) =~= pat@);
    true
}

/// The first occurrence of `pat` in `hay` at or after `from`.
pub fn find_chars_from(hay: &Vec<char>, pat: &Vec<char>, from: usize) -> (r: Option<usize>)
    ensures
        match r {
            Some(i) => find_from(hay@, pat@, from as int) == Some(i as int),
            None => find_from(hay@, pat@, from as int) is None,
        },
{
    let mut i = from;
    while i <= hay.len() && pat.len() <= hay.len() - i
        invariant
            from <= i,
            find_from(hay@, pat@, from as int) == find_from(hay@, pat@, i as int),
        decreases hay.len() + 1 - i,
    {
        if matches_at(hay, pat, i) {
            return Some(i);
        }
        proof {
            if pat.len() == 0 {
                assert(hay@.subrange(i as int, i as int) =~= pat@);
            }
        }
        i = i + 1;
    }
    None
}

/// The first occurrence of `pat` in `hay`.
pub fn find_chars(hay: &Vec<char>, pat: &Vec<char>) -> (r: Option<usize>)
    ensures
        match r {
            Some(i) => find(hay@, pat@) == Some(i as int),
            None => find(hay@, pat@) is None,
        },
{
    find_chars_from(hay, pat, 0)
}

/// Whether `pat` occurs in `hay`.
pub fn contains_chars(hay: &Vec<char>, pat: &Vec<char>) -> (r: bool)
    ensures
        r == contains(hay@, pat@),
{
    find_chars(hay, pat).is_some()
}

/// Whether `s` starts with `p`.
pub fn starts_with_chars(s: &Vec<char>, p: &Vec<char>) -> (r: bool)
    ensures
        r == starts_with(s@, p@),
{
    matches_at(s, p, 0)
}

/// Whether `s` ends with `p`.
pub fn ends_with_chars(s: &Vec<char>, p: &Vec<char>) -> (r: bool)
    ensures
        r == ends_with(s@, p@),
{
    if p.len() > s.len() {
        false
    } else {
        matches_at(s, p, s.len() - p.len())
    }
}

proof fn lemma_trim_start_skip(s: Seq<char>, i: int)
    requires
        0 <= i <= s.len(),
        forall|j: int| 0 <= j < i ==> is_ws(#[trigger] s[j]),
    ensures
        trim_start(s) == trim_start(s.subrange(i, s.len() as int)),
    decreases i,
{
    if i > 0 {
        assert(s.drop_first() =~= s.subrange(1, s.len() as int));
        assert(is_ws(s[0]));
        assert forall|j: int| 0 <= j < i - 1 implies is_ws(#[trigger] s.drop_first()[j]) by {
            assert(s.drop_first()[j] == s[j + 1]);
        }
        lemma_trim_start_skip(s.drop_first(), i - 1);
        assert(s.drop_first().subrange(i - 1, s.drop_first().len() as int) =~= s.subrange(
            i,
            s.len() as int,
        ));
    } else {
        assert(s.subrange(0, s.len() as int) =~= s);
    }
}

proof fn lemma_trim_end_cut(s: Seq<char>, e: int)
    requires
        0 <= e <= s.len(),
        forall|j: int| e <= j < s.len() ==> is_ws(#[trigger] s[j]),
    ensures
        trim_end(s) == trim_end(s.subrange(0, e)),
    decreases s.len() - e,
{
    if e < s.len() {
        assert(s.drop_last() =~= s.subrange(0, s.len() - 1));
        assert(is_ws(s[s.len() - 1]));
        assert forall|j: int| e <= j < s.drop_last().len() implies is_ws(
            #[trigger] s.drop_last()[j],
        ) by {
            assert(s.drop_last()[j] == s[j]);
        }
        lemma_trim_end_cut(s.drop_last(), e);
        assert(s.drop_last().subrange(0, e) =~= s.subrange(0, e));
    } else {
        assert(s.subrange(0, e) =~= s);
    }
}

/// The bounds `(start, end)` such that `trim(s) == s[start..end]`.
pub fn trim_bounds(s: &Vec<char>) -> (r: (usize, usize))
    ensures
        r.0 <= r.1 <= s.len(),
        trim(s@) == s@.subrange(r.0 as int, r.1 as int),
{
    let mut i: usize = 0;
    while i < s.len() && is_whitespace(s[i])
        invariant
            i <= s.len(),
            forall|j: int| 0 <= j < i ==> is_ws(#[trigger] s@[j]),
        decreases s.len() - i,
    {
        i = i + 1;
    }
    proof {
        lemma_trim_start_skip(s@, i as int);
    }
    let ghost t = s@.subrange(i as int, s.len() as int);
    assert(trim_start(t) == t) by {
        if t.len() > 0 {
            assert(t[0] == s@[i as int]);
        }
    }
    let mut e: usize = s.len();
    while e > i && is_whitespace(s[e - 1])
        invariant
            i <= e <= s.len(),
            forall|j: int| e <= j < s.len() ==> is_ws(#[trigger] s@[j]),
        decreases e,
    {
        e = e - 1;
    }
    proof {
        let te = e - i;
        assert forall|j: int| te <= j < t.len() implies is_ws(#[trigger] t[j]) by {
            assert(t[j] == s@[i + j]);
        }
        lemma_trim_end_cut(t, te);
        let u = t.subrange(0, te);
        assert(u =~= s@.subrange(i as int, e as int));
        if u.len() > 0 {
            assert(u.last() == s@[e - 1]);
        }
        assert(trim_end(u) == u);
    }
    (i, e)
}

/// `str::trim`.
pub fn trim_chars(s: &Vec<char>) -> (r: Vec<char>)
    ensures
        r@ == trim(s@),
{
    let (a, b) = trim_bounds(s);
    slice_chars(s, a, b)
}

/// `str::trim` on a `String`.
pub fn trim_string(s: &str) -> (r: String)
    ensures
        r@ == trim(s@),
{
    let v = chars_of(s);
    let t = trim_chars(&v);
    string_from_chars(t.as_slice())
}

pub proof fn lemma_find_shift_pub(s: Seq<char>, pat: Seq<char>, k: int)
    requires
        0 <= k <= s.len(),
        pat.len() > 0,
    ensures
        find_from(s, pat, k) matches Some(i) ==> find(s.subrange(k, s.len() as int), pat) == Some(
            i - k,
        ),
        find_from(s, pat, k) is None ==> find(s.subrange(k, s.len() as int), pat) is None,
{
    let t = s.subrange(k, s.len() as int);
    lemma_find_from_in_range(s, pat, k);
    lemma_find_from_in_range(t, pat, 0);
    assert forall|j: int| 0 <= j implies occurs_at(t, pat, j) == occurs_at(s, pat, j + k) by {
        if 0 <= j && j + pat.len() <= t.len() {
            assert(t.subrange(j, j + pat.len()) =~= s.subrange(j + k, j + k + pat.len()));
        }
    }
    match find_from(s, pat, k) {
        Some(i) => {
            match find(t, pat) {
                Some(i2) => {
                    assert(occurs_at(t, pat, i2));
                    assert(occurs_at(s, pat, i2 + k));
                    assert(occurs_at(t, pat, i - k));
                    if i2 < i - k {
                        assert(!occurs_at(s, pat, i2 + k));
                    }
                    if i2 > i - k {
                        assert(!occurs_at(t, pat, i - k));
                    }
                },
                None => {
                    assert(!occurs_at(t, pat, i - k));
                },
            }
        },
        None => {
            match find(t, pat) {
                Some(i2) => {
                    assert(occurs_at(t, pat, i2));
                    assert(!occurs_at(s, pat, i2 + k));
                },
                None => {},
            }
        },
    }
}

/// `str::replace` with a non-empty pattern.
pub fn replace_all_chars(s: &Vec<char>, pat: &Vec<char>, with: &Vec<char>) -> (r: Vec<char>)
    requires
        pat.len() > 0,
    ensures
        r@ == replace_all(s@, pat@, with@),
{
    let mut out: Vec<char> = Vec::new();
    let mut k: usize = 0;
    assert(s@.subrange(0, s.len() as int) =~= s@);
    assert(out@ + replace_all(s@, pat@, with@) =~= replace_all(s@, pat@, with@));
    loop
        invariant
            k <= s.len(),
            pat.len() > 0,
            out@ + replace_all(s@.subrange(k as int, s.len() as int), pat@, with@) == replace_all(
                s@,
                pat@,
                with@,
            ),
        decreases s.len() - k,
    {
        let ghost rest = s@.subrange(k as int, s.len() as int);
        proof {
            lemma_find_shift_pub(s@, pat@, k as int);
            lemma_find_from_in_range(s@, pat@, k as int);
        }
        match find_chars_from(s, pat, k) {
            None => {
                extend_chars(&mut out, s, k, s.len());
                return out;
            },
            Some(i) => {
                extend_chars(&mut out, s, k, i);
                extend_chars(&mut out, with, 0, with.len());
                proof {
                    assert(with@.subrange(0, with@.len() as int) =~= with@);
                    let j = i - k;
                    assert(rest.subrange(0, j) =~= s@.subrange(k as int, i as int));
                    assert(rest.subrange(j + pat.len(), rest.len() as int) =~= s@.subrange(
                        i + pat.len(),
                        s.len() as int,
                    ));
                }
                k = i + pat.len();
            },
        }
    }
}

/// `str::matches(pat).count()`.
pub fn count_matches_chars(s: &Vec<char>, pat: &Vec<char>) -> (r: u128)
    ensures
        r == count_matches(s@, pat@),
{
    if pat.len() == 0 {
        return s.len() as u128 + 1;
    }
    assert(s@.subrange(0, s.len() as int) =~= s@);
    let mut n: u128 = 0;
    let mut k: usize = 0;
    loop
        invariant
            k <= s.len(),
            pat.len() > 0,
            n <= k,
            n + count_matches(s@.subrange(k as int, s.len() as int), pat@) == count_matches(
                s@,
                pat@,
            ),
        decreases s.len() - k,
    {
        let ghost rest = s@.subrange(k as int, s.len() as int);
        proof {
            lemma_find_shift_pub(s@, pat@, k as int);
            lemma_find_from_in_range(s@, pat@, k as int);
        }
        match find_chars_from(s, pat, k) {
            None => {
                return n;
            },
            Some(i) => {
                proof {
                    let j = i - k;
                    assert(rest.subrange(j + pat.len(), rest.len() as int) =~= s@.subrange(
                        i + pat.len(),
                        s.len() as int,
                    ));
                }
                n = n + 1;
                k = i + pat.len();
            },
        }
    }
}

/// `str::replacen(pat, with, 1)`.
pub fn replace_first_chars(s: &Vec<char>, pat: &Vec<char>, with: &Vec<char>) -> (r: Vec<char>)
    ensures
        r@ == replace_first(s@, pat@, with@),
{
    match find_chars(s, pat) {
        None => slice_chars(s, 0, s.len()),
        Some(i) => {
            proof {
                lemma_find_from_in_range(s@, pat@, 0);
            }
            assert(i + pat.len() <= s.len());
            let mut out = slice_chars(s, 0, i);
            extend_chars(&mut out, with, 0, with.len());
            extend_chars(&mut out, s, i + pat.len(), s.len());
            proof {
                assert(with@.subrange(0, with@.len() as int) =~= with@);
            }
            out
        },
    }
}

proof fn lemma_words_skip_ws(s: Seq<char>, i: int, k: int)
    requires
        0 <= i <= k <= s.len(),
        forall|j: int| i <= j < k ==> is_ws(#[trigger] s[j]),
    ensures
        words(s.subrange(i, s.len() as int)) == words(s.subrange(k, s.len() as int)),
    decreases k - i,
{
    if i < k {
        let t = s.subrange(i, s.len() as int);
        assert(t[0] == s[i]);
        assert(t.drop_first() =~= s.subrange(i + 1, s.len() as int));
        lemma_words_skip_ws(s, i + 1, k);
    }
}

/// `str::split_whitespace`, collected.
pub fn split_whitespace_chars(s: &Vec<char>) -> (r: Vec<Vec<char>>)
    ensures
        r@.map_values(|w: Vec<char>| w@) == words(s@),
{
    let mut out: Vec<Vec<char>> = Vec::new();
    let mut i: usize = 0;
    assert(s@.subrange(0, s.len() as int) =~= s@);
    assert(out@.map_values(|w: Vec<char>| w@) + words(s@) =~= words(s@));
    loop
        invariant
            i <= s.len(),
            out@.map_values(|w: Vec<char>| w@) + words(s@.subrange(i as int, s.len() as int))
                == words(s@),
        decreases s.len() - i,
    {
        let start = i;
        while i < s.len() && is_whitespace(s[i])
            invariant
                start <= i <= s.len(),
                forall|j: int| start <= j < i ==> is_ws(#[trigger] s@[j]),
            decreases s.len() - i,
        {
            i = i + 1;
        }
        proof {
            lemma_words_skip_ws(s@, start as int, i as int);
        }
        if i == s.len() {
            proof {
                assert(s@.subrange(i as int, s.len() as int).len() == 0);
                assert(out@.map_values(|w: Vec<char>| w@) + Seq::<Seq<char>>::empty()
                    =~= out@.map_values(|w: Vec<char>| w@));
            }
            return out;
        }
        let ws = i;
        while i < s.len() && !is_whitespace(s[i])
            invariant
                ws <= i <= s.len(),
                forall|j: int| ws <= j < i ==> !is_ws(#[trigger] s@[j]),
            decreases s.len() - i,
        {
            i = i + 1;
        }
        let word = slice_chars(s, ws, i);
        proof {
            let t = s@.subrange(ws as int, s.len() as int);
            lemma_word_len_skip(s@, ws as int, i as int);
            assert(t[0] == s@[ws as int]);
            assert(t.subrange(0, (i - ws) as int) =~= word@);
            assert(t.subrange((i - ws) as int, t.len() as int) =~= s@.subrange(
                i as int,
                s.len() as int,
            ));
            assert(words(t) == seq![word@] + words(s@.subrange(i as int, s.len() as int)));
        }
        let ghost before = out@;
        out.push(word);
        proof {
            assert(out@.map_values(|w: Vec<char>| w@) =~= before.map_values(|w: Vec<char>| w@).push(
                word@,
            ));
            assert(out@.map_values(|w: Vec<char>| w@) + words(s@.subrange(i as int, s.len() as int))
                =~= before.map_values(|w: Vec<char>| w@) + (seq![word@] + words(
                s@.subrange(i as int, s.len() as int),
            )));
        }
    }
}

/// `[..].join(sep)` over character vectors.
pub fn join_chars(parts: &Vec<Vec<char>>, sep: &Vec<char>) -> (r: Vec<char>)
    ensures
        r@ == join(parts@.map_values(|p: Vec<char>| p@), sep@),
{
    let mut out: Vec<char> = Vec::new();
    let mut i: usize = 0;
    while i < parts.len()
        invariant
            i <= parts.len(),
            out@ == join(parts@.map_values(|p: Vec<char>| p@).take(i as int), sep@),
        decreases parts.len() - i,
    {
        let ghost ps = parts@.map_values(|p: Vec<char>| p@);
        if i > 0 {
            extend_chars(&mut out, sep, 0, sep.len());
        }
        extend_chars(&mut out, &parts[i], 0, parts[i].len());
        proof {
            assert(sep@.subrange(0, sep@.len() as int) =~= sep@);
            assert(parts@[i as int]@.subrange(0, parts@[i as int]@.len() as int)
                =~= parts@[i as int]@);
            assert(ps.take(i + 1) =~= ps.take(i as int).push(ps[i as int]));
            lemma_join_push(ps.take(i as int), sep@, ps[i as int]);
        }
        i = i + 1;
    }
    assert(parts@.map_values(|p: Vec<char>| p@).take(parts.len() as int) =~= parts@.map_values(
        |p: Vec<char>| p@,
    ));
    out
}


/// The decimal digit character for `d` (`0`..`9`).
pub open spec fn digit_char(d: nat) -> char {
    if d == 0 {
        '0'
    } else if d == 1 {
        '1'
    } else if d == 2 {
        '2'
    } else if d == 3 {
        '3'
    } else if d == 4 {
        '4'
    } else if d == 5 {
        '5'
    } else if d == 6 {
        '6'
    } else if d == 7 {
        '7'
    } else if d == 8 {
        '8'
    } else {
        '9'
    }
}

/// The decimal representation of `n`, without leading zeros (`n.to_string()`).
pub open spec fn decimal(n: nat) -> Seq<char>
    decreases n,
{
    if n < 10 {
        seq![digit_char(n)]
    } else {
        decimal(n / 10) + seq![digit_char(n % 10)]
    }
}

fn digit(d: u64) -> (r: char)
    requires
        d < 10,
    ensures
        r == digit_char(d as nat),
{
    if d == 0 {
        '0'
    } else if d == 1 {
        '1'
    } else if d == 2 {
        '2'
    } else if d == 3 {
        '3'
    } else if d == 4 {
        '4'
    } else if d == 5 {
        '5'
    } else if d == 6 {
        '6'
    } else if d == 7 {
        '7'
    } else if d == 8 {
        '8'
    } else {
        '9'
    }
}

/// `n.to_string()` for an unsigned integer.
pub fn decimal_string(n: u128) -> (r: String)
    ensures
        r@ == decimal(n as nat),
{
    let mut x: u128 = n;
    let mut suffix: Vec<char> = Vec::new();
    while x >= 10
        invariant
            decimal(n as nat) == decimal(x as nat) + suffix@,
        decreases x,
    {
        let d = digit((x % 10) as u64);
        let ghost before = suffix@;
        suffix.insert(0, d);
        assert(suffix@ =~= seq![d] + before);
        assert(decimal(x as nat) == decimal((x / 10) as nat) + seq![d]);
        assert(decimal((x / 10) as nat) + seq![d] + before =~= decimal((x / 10) as nat) + suffix@);
        x = x / 10;
    }
    let mut out: Vec<char> = Vec::new();
    out.push(digit(x as u64));
    let ghost head = out@;
    let mut i: usize = 0;
    while i < suffix.len()
        invariant
            i <= suffix.len(),
            out@ == head + suffix@.take(i as int),
        decreases suffix.len() - i,
    {
        out.push(suffix[i]);
        assert(suffix@.take(i + 1) =~= suffix@.take(i as int).push(suffix@[i as int]));
        i = i + 1;
    }
    assert(suffix@.take(suffix.len() as int) =~= suffix@);
    assert(head =~= decimal(x as nat));
    string_from_chars(out.as_slice())
}


/// Equality of two character vectors.
pub fn chars_eq(a: &Vec<char>, b: &Vec<char>) -> (r: bool)
    ensures
        r == (a@ == b@),
{
    if a.len() != b.len() {
        return false;
    }
    let mut i: usize = 0;
    while i < a.len()
        invariant
            i <= a.len(),
            a.len() == b.len(),
            forall|j: int| 0 <= j < i ==> a@[j] == b@[j],
        decreases a.len() - i,
    {
        if a[i] != b[i] {
            return false;
        }
        i = i + 1;
    }
    assert(a@ =~= b@);
    true
}

/// `a == b` for string slices.
pub fn str_eq(a: &str, b: &str) -> (r: bool)
    ensures
        r == (a@ == b@),
{
    chars_eq(&chars_of(a), &chars_of(b))
}


/// The lowercase hexadecimal digit for `d` (`0`..`f`).
pub open spec fn hex_char(d: nat) -> char {
    if d < 10 {
        digit_char(d)
    } else if d == 10 {
        'a'
    } else if d == 11 {
        'b'
    } else if d == 12 {
        'c'
    } else if d == 13 {
        'd'
    } else if d == 14 {
        'e'
    } else {
        'f'
    }
}

/// A lowercase hexadecimal digit.
pub open spec fn is_lower_hex(c: char) -> bool {
    ('0' <= c && c <= '9') || ('a' <= c && c <= 'f')
}

/// The `n` low hexadecimal digits of `u`, most significant first, with
/// leading zeros.
pub open spec fn hex_digits(u: nat, n: nat) -> Seq<char>
    decreases n,
{
    if n == 0 {
        seq![]
    } else {
        hex_digits(u / 16, (n - 1) as nat) + seq![hex_char(u % 16)]
    }
}

pub proof fn lemma_hex_digits_are_hex(u: nat, n: nat)
    ensures
        hex_digits(u, n).len() == n,
        forall|i: int| 0 <= i < n ==> is_lower_hex(#[trigger] hex_digits(u, n)[i]),
    decreases n,
{
    if n > 0 {
        lemma_hex_digits_are_hex(u / 16, (n - 1) as nat);
        let d = u % 16;
        assert(is_lower_hex(hex_char(d)));
        assert forall|i: int| 0 <= i < n implies is_lower_hex(#[trigger] hex_digits(u, n)[i]) by {
            if i < n - 1 {
                assert(hex_digits(u, n)[i] == hex_digits(u / 16, (n - 1) as nat)[i]);
            }
        }
    }
}

fn hex_digit(d: u128) -> (r: char)
    requires
        d < 16,
    ensures
        r == hex_char(d as nat),
{
    if d < 10 {
        digit(d as u64)
    } else if d == 10 {
        'a'
    } else if d == 11 {
        'b'
    } else if d == 12 {
        'c'
    } else if d == 13 {
        'd'
    } else if d == 14 {
        'e'
    } else {
        'f'
    }
}

/// The 32 lowercase hexadecimal digits of a 128-bit value, most significant
/// first (the "simple" text form of a UUID).
pub fn hex32(u: u128) -> (r: Vec<char>)
    ensures
        r@ == hex_digits(u as nat, 32),
{
    let mut x: u128 = u;
    let mut out: Vec<char> = Vec::new();
    let mut i: usize = 0;
    while i < 32
        invariant
            i <= 32,
            hex_digits(u as nat, 32) == hex_digits(x as nat, (32 - i) as nat) + out@,
        decreases 32 - i,
    {
        let d = hex_digit(x % 16);
        let ghost before = out@;
        out.insert(0, d);
        assert(hex_digits(x as nat, (32 - i) as nat) == hex_digits((x / 16) as nat, (32 - i - 1) as nat) + seq![d]);
        assert(hex_digits((x / 16) as nat, (32 - i - 1) as nat) + seq![d] + before =~= hex_digits((x / 16) as nat, (32 - i - 1) as nat) + out@);
        x = x / 16;
        i = i + 1;
    }
    assert(hex_digits(x as nat, 0) =~= Seq::<char>::empty());
    assert(out@ =~= hex_digits(u as nat, 32));
    out
}


/// Lexicographic order of character sequences (the order of `String`'s
/// `Ord`, which compares UTF-8 bytes and so code points).
pub open spec fn lex_le(a: Seq<char>, b: Seq<char>) -> bool
    decreases a.len(),
{
    if a.len() == 0 {
        true
    } else if b.len() == 0 {
        false
    } else if a[0] != b[0] {
        a[0] < b[0]
    } else {
        lex_le(a.drop_first(), b.drop_first())
    }
}

/// Every element is at most every later one.
pub open spec fn lex_sorted(s: Seq<Seq<char>>) -> bool {
    forall|i: int, j: int| 0 <= i < j < s.len() ==> lex_le(#[trigger] s[i], #[trigger] s[j])
}

pub proof fn lemma_lex_total(a: Seq<char>, b: Seq<char>)
    ensures
        lex_le(a, b) || lex_le(b, a),
    decreases a.len(),
{
    if a.len() > 0 && b.len() > 0 && a[0] == b[0] {
        lemma_lex_total(a.drop_first(), b.drop_first());
    }
}

pub proof fn lemma_lex_trans(a: Seq<char>, b: Seq<char>, c: Seq<char>)
    requires
        lex_le(a, b),
        lex_le(b, c),
    ensures
        lex_le(a, c),
    decreases a.len(),
{
    if a.len() > 0 && b.len() > 0 && c.len() > 0 && a[0] == b[0] && b[0] == c[0] {
        lemma_lex_trans(a.drop_first(), b.drop_first(), c.drop_first());
    }
}

/// `a <= b` in lexicographic order.
pub fn lex_le_chars(a: &Vec<char>, b: &Vec<char>) -> (r: bool)
    ensures
        r == lex_le(a@, b@),
{
    let mut i: usize = 0;
    assert(a@.skip(0) =~= a@);
    assert(b@.skip(0) =~= b@);
    while i < a.len() && i < b.len() && a[i] == b[i]
        invariant
            i <= a.len(),
            i <= b.len(),
            lex_le(a@, b@) == lex_le(a@.skip(i as int), b@.skip(i as int)),
        decreases a.len() - i,
    {
        proof {
            let sa = a@.skip(i as int);
            let sb = b@.skip(i as int);
            assert(sa.drop_first() =~= a@.skip(i + 1));
            assert(sb.drop_first() =~= b@.skip(i + 1));
        }
        i = i + 1;
    }
    if i == a.len() {
        assert(a@.skip(i as int).len() == 0);
        true
    } else if i == b.len() {
        assert(b@.skip(i as int).len() == 0);
        false
    } else {
        assert(a@.skip(i as int)[0] == a@[i as int]);
        assert(b@.skip(i as int)[0] == b@[i as int]);
        a[i] < b[i]
    }
}

/// The character sequences of `items`, sorted (`Vec<String>::sort`).
pub fn sort_texts(items: Vec<Vec<char>>) -> (r: Vec<Vec<char>>)
    ensures
        lex_sorted(r@.map_values(|v: Vec<char>| v@)),
        r@.map_values(|v: Vec<char>| v@).to_multiset() == items@.map_values(|v: Vec<char>| v@).to_multiset(),
{
    let ghost src = items@.map_values(|v: Vec<char>| v@);
    let mut out: Vec<Vec<char>> = Vec::new();
    let mut i: usize = 0;
    let mut rest = items;
    let ghost taken: Seq<Seq<char>> = seq![];
    assert(out@.map_values(|v: Vec<char>| v@) =~= Seq::<Seq<char>>::empty());
    while rest.len() > 0
        invariant
            lex_sorted(out@.map_values(|v: Vec<char>| v@)),
            out@.map_values(|v: Vec<char>| v@).to_multiset() == taken.to_multiset(),
            src == taken + rest@.map_values(|v: Vec<char>| v@),
        decreases rest.len(),
    {
        let x = rest.remove(0);
        let ghost ov = out@.map_values(|v: Vec<char>| v@);
        let mut p: usize = 0;
        while p < out.len() && lex_le_chars(&out[p], &x)
            invariant
                p <= out.len(),
                ov == out@.map_values(|v: Vec<char>| v@),
                forall|j: int| 0 <= j < p ==> lex_le(#[trigger] ov[j], x@),
            decreases out.len() - p,
        {
            p = p + 1;
        }
        proof {
            if p < out.len() {
                lemma_lex_total(ov[p as int], x@);
            }
            assert forall|j: int| p <= j < ov.len() implies lex_le(x@, #[trigger] ov[j]) by {
                if j > p {
                    lemma_lex_trans(x@, ov[p as int], ov[j]);
                }
            }
        }
        out.insert(p, x);
        proof {
            let nv = out@.map_values(|v: Vec<char>| v@);
            assert(nv =~= ov.insert(p as int, x@));
            assert forall|a: int, b: int| 0 <= a < b < nv.len() implies lex_le(#[trigger] nv[a], #[trigger] nv[b]) by {
                if a < p && b == p {
                } else if a < p && b > p {
                    assert(nv[b] == ov[b - 1]);
                    lemma_lex_trans(ov[a], x@, ov[b - 1]);
                } else if a == p {
                    assert(nv[b] == ov[b - 1]);
                } else if b < p {
                } else {
                    assert(nv[a] == ov[a - 1]);
                    assert(nv[b] == ov[b - 1]);
                }
            }
            vstd::seq_lib::to_multiset_insert(ov, p as int, x@);
            vstd::seq_lib::to_multiset_build(taken, x@);
            taken = taken.push(x@);
        }
        assert(src == taken + rest@.map_values(|v: Vec<char>| v@));
    }
    assert(taken =~= src);
    out
}

} // verus!
