//! Filename globbing: `*` matches any run of characters, `?` exactly one.
use vstd::prelude::*;

use crate::text::chars_of;

verus! {

/// `name` matches `pattern`: `*` stands for any (possibly empty) sequence of
/// characters, `?` for exactly one character, and every other character for
/// itself.  Matching is case-sensitive.
pub open spec fn glob(pattern: Seq<char>, name: Seq<char>) -> bool
    decreases pattern.len(), name.len(),
{
    if pattern.len() == 0 {
        name.len() == 0
    } else if pattern[0] == '*' {
        glob(pattern.drop_first(), name) || (name.len() > 0 && glob(pattern, name.drop_first()))
    } else if name.len() == 0 {
        false
    } else if pattern[0] == '?' || pattern[0] == name[0] {
        glob(pattern.drop_first(), name.drop_first())
    } else {
        false
    }
}

/// A leading `*` matches when the rest of the pattern matches some suffix.
pub proof fn lemma_star(pattern: Seq<char>, name: Seq<char>)
    requires
        pattern.len() > 0,
        pattern[0] == '*',
    ensures
        glob(pattern, name) <==> exists|k: int|
            0 <= k <= name.len() && #[trigger] glob(
                pattern.drop_first(),
                name.subrange(k, name.len() as int),
            ),
    decreases name.len(),
{
    let rest = pattern.drop_first();
    assert(name.subrange(0, name.len() as int) =~= name);
    if name.len() > 0 {
        lemma_star(pattern, name.drop_first());
    }
    if glob(pattern, name) {
        if glob(rest, name) {
            assert(glob(rest, name.subrange(0, name.len() as int)));
        } else {
            assert(name.len() > 0 && glob(pattern, name.drop_first()));
            let k = choose|k: int|
                0 <= k <= name.drop_first().len() && #[trigger] glob(
                    rest,
                    name.drop_first().subrange(k, name.drop_first().len() as int),
                );
            assert(name.drop_first().subrange(k, name.drop_first().len() as int)
                =~= name.subrange(k + 1, name.len() as int));
            assert(glob(rest, name.subrange(k + 1, name.len() as int)));
        }
    }
    if exists|k: int|
        0 <= k <= name.len() && #[trigger] glob(rest, name.subrange(k, name.len() as int)) {
        let k = choose|k: int|
            0 <= k <= name.len() && #[trigger] glob(rest, name.subrange(k, name.len() as int));
        if k == 0 {
            assert(glob(rest, name));
        } else {
            assert(name.drop_first().subrange(k - 1, name.drop_first().len() as int)
                =~= name.subrange(k, name.len() as int));
            assert(glob(rest, name.drop_first().subrange(k - 1, name.drop_first().len() as int)));
            assert(glob(pattern, name.drop_first()));
        }
        assert(glob(pattern, name));
    }
}

/// `pattern` has no `*`.
pub open spec fn star_free(pattern: Seq<char>) -> bool {
    forall|i: int| 0 <= i < pattern.len() ==> pattern[i] != '*'
}

/// A pattern without `*` matches exactly the names of its own length whose
/// every character equals the pattern's character there, or stands under a
/// `?`; in particular the empty pattern matches only the empty name.
pub proof fn lemma_star_free(pattern: Seq<char>, name: Seq<char>)
    requires
        star_free(pattern),
    ensures
        glob(pattern, name) <==> (name.len() == pattern.len() && forall|i: int|
            0 <= i < pattern.len() ==> pattern[i] == '?' || #[trigger] pattern[i] == name[i]),
    decreases pattern.len(),
{
    if pattern.len() > 0 && name.len() > 0 {
        let p1 = pattern.drop_first();
        let n1 = name.drop_first();
        assert forall|i: int| 0 <= i < p1.len() implies p1[i] != '*' by {
            assert(p1[i] == pattern[i + 1]);
        }
        lemma_star_free(p1, n1);
        if glob(pattern, name) {
            assert forall|i: int| 0 <= i < pattern.len() implies pattern[i] == '?' || #[trigger] pattern[i]
                == name[i] by {
                if i > 0 {
                    assert(p1[i - 1] == '?' || p1[i - 1] == n1[i - 1]);
                }
            }
        }
        if name.len() == pattern.len() && forall|i: int|
            0 <= i < pattern.len() ==> pattern[i] == '?' || #[trigger] pattern[i] == name[i] {
            assert(pattern[0] == '?' || pattern[0] == name[0]);
            assert forall|i: int| 0 <= i < p1.len() implies p1[i] == '?' || #[trigger] p1[i] == n1[i] by {
                assert(pattern[i + 1] == '?' || pattern[i + 1] == name[i + 1]);
            }
        }
    } else if pattern.len() > 0 {
        assert(pattern[0] != '*');
    }
}

/// A pattern made of `*` and then a `*`-free rest matches exactly the names
/// that end in a match of the rest: `*.rs` takes `main.rs` but not
/// `notes.rst`.
pub proof fn lemma_star_then_literal(pattern: Seq<char>, name: Seq<char>)
    requires
        pattern.len() > 0,
        pattern[0] == '*',
        star_free(pattern.drop_first()),
    ensures
        glob(pattern, name) <==> ({
            let rest = pattern.drop_first();
            let k = name.len() - rest.len();
            &&& rest.len() <= name.len()
            &&& forall|i: int| 0 <= i < rest.len() ==> rest[i] == '?' || #[trigger] rest[i] == name[k + i]
        }),
{
    let rest = pattern.drop_first();
    lemma_star(pattern, name);
    let k = name.len() - rest.len();
    if glob(pattern, name) {
        let j = choose|j: int| 0 <= j <= name.len() && #[trigger] glob(rest, name.subrange(j, name.len() as int));
        lemma_star_free(rest, name.subrange(j, name.len() as int));
        assert(j == k);
        assert forall|i: int| 0 <= i < rest.len() implies rest[i] == '?' || #[trigger] rest[i] == name[k + i] by {
            assert(rest[i] == '?' || rest[i] == name.subrange(j, name.len() as int)[i]);
        }
    }
    if rest.len() <= name.len() && forall|i: int|
        0 <= i < rest.len() ==> rest[i] == '?' || #[trigger] rest[i] == name[k + i] {
        let tail = name.subrange(k, name.len() as int);
        lemma_star_free(rest, tail);
        assert forall|i: int| 0 <= i < rest.len() implies rest[i] == '?' || #[trigger] rest[i] == tail[i] by {
            assert(rest[i] == '?' || rest[i] == name[k + i]);
        }
        assert(glob(rest, tail));
    }
}

/// Whether `n[ni..]` matches `p[pi..]`.
pub fn glob_recurse(p: &Vec<char>, n: &Vec<char>, pi: usize, ni: usize) -> (r: bool)
    requires
        pi <= p.len(),
        ni <= n.len(),
    ensures
        r == glob(p@.subrange(pi as int, p.len() as int), n@.subrange(ni as int, n.len() as int)),
    decreases p.len() - pi,
{
    let ghost ps = p@.subrange(pi as int, p.len() as int);
    let ghost ns = n@.subrange(ni as int, n.len() as int);
    if pi == p.len() {
        return ni == n.len();
    }
    assert(ps[0] == p@[pi as int]);
    assert(ps.drop_first() =~= p@.subrange(pi + 1, p.len() as int));
    if p[pi] == '*' {
        proof {
            lemma_star(ps, ns);
        }
        let mut skip = ni;
        loop
            invariant
                ni <= skip <= n.len(),
                pi < p.len(),
                ps == p@.subrange(pi as int, p.len() as int),
                ns == n@.subrange(ni as int, n.len() as int),
                ps.drop_first() =~= p@.subrange(pi + 1, p.len() as int),
                ps.len() > 0 && ps[0] == '*',
                forall|k: int|
                    0 <= k < skip - ni ==> !#[trigger] glob(
                        ps.drop_first(),
                        ns.subrange(k, ns.len() as int),
                    ),
            decreases n.len() - skip,
        {
            assert(ns.subrange(skip - ni, ns.len() as int) =~= n@.subrange(
                skip as int,
                n.len() as int,
            ));
            if glob_recurse(p, n, pi + 1, skip) {
                assert(glob(ps.drop_first(), ns.subrange(skip - ni, ns.len() as int)));
                proof {
                    lemma_star(ps, ns);
                }
                return true;
            }
            if skip == n.len() {
                proof {
                    lemma_star(ps, ns);
                }
                return false;
            }
            skip = skip + 1;
        }
    }
    if ni == n.len() {
        return false;
    }
    assert(ns[0] == n@[ni as int]);
    assert(ns.drop_first() =~= n@.subrange(ni + 1, n.len() as int));
    if p[pi] == '?' || p[pi] == n[ni] {
        return glob_recurse(p, n, pi + 1, ni + 1);
    }
    false
}

/// Whether `name` matches the glob `pattern`.
pub fn glob_matches(pattern: &str, name: &str) -> (r: bool)
    ensures
        r == glob(pattern@, name@),
{
    let p = chars_of(pattern);
    let n = chars_of(name);
    assert(p@.subrange(0, p.len() as int) =~= p@);
    assert(n@.subrange(0, n.len() as int) =~= n@);
    glob_recurse(&p, &n, 0, 0)
}

/// A predicate that tests filenames against `pattern`.
pub fn glob_match_fn(pattern: &str) -> (f: impl Fn(&str) -> bool + '_)
    ensures
        forall|name: &str| #[trigger] f.requires((name,)),
        forall|name: &str, r: bool| f.ensures((name,), r) ==> r == glob(pattern@, name@),
{
    move |name: &str| -> (r: bool)
        ensures
            r == glob(pattern@, name@),
        { glob_matches(pattern, name) }
}

} // verus!
