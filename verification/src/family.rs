//! Selector-family classification.
//!
//! A selector belongs to a family when, after stripping any number of leading
//! underscores, its text begins with the family name and the next byte (if
//! any) is not a lowercase ASCII letter. The five families `new`, `alloc`,
//! `init`, `copy` and `mutableCopy` decide the retain semantics of a message
//! send; every other selector falls in the general category.

use vstd::prelude::*;
use vstd::string::StringSliceAdditionalSpecFns;

verus! {

/// The `new` family name, as bytes.
pub open spec fn new_family() -> Seq<u8> {
    seq![('n' as u8), ('e' as u8), ('w' as u8)]
}

/// The `alloc` family name, as bytes.
pub open spec fn alloc_family() -> Seq<u8> {
    seq![('a' as u8), ('l' as u8), ('l' as u8), ('o' as u8), ('c' as u8)]
}

/// The `init` family name, as bytes.
pub open spec fn init_family() -> Seq<u8> {
    seq![('i' as u8), ('n' as u8), ('i' as u8), ('t' as u8)]
}

/// The `copy` family name, as bytes.
pub open spec fn copy_family() -> Seq<u8> {
    seq![('c' as u8), ('o' as u8), ('p' as u8), ('y' as u8)]
}

/// The `mutableCopy` family name, as bytes.
pub open spec fn mutable_copy_family() -> Seq<u8> {
    seq![('m' as u8), ('u' as u8), ('t' as u8), ('a' as u8), ('b' as u8), ('l' as u8), ('e' as u8), ('C' as u8), ('o' as u8), ('p' as u8), ('y' as u8)]
}

pub open spec fn is_ascii_lowercase_byte(b: u8) -> bool {
    ('a' as u8) <= b && b <= ('z' as u8)
}

/// The selector text with all leading underscore bytes removed.
pub open spec fn strip_leading_underscores(s: Seq<u8>) -> Seq<u8>
    decreases s.len(),
{
    if s.len() > 0 && s[0] == ('_' as u8) {
        strip_leading_underscores(s.skip(1))
    } else {
        s
    }
}

/// Whether a selector text is in a selector family: after stripping leading
/// underscores it begins with the family name, and the match ends the text or
/// is followed by a byte that is not a lowercase ASCII letter (the camelCase
/// boundary rule).
pub open spec fn in_family(selector: Seq<u8>, family: Seq<u8>) -> bool {
    let t = strip_leading_underscores(selector);
    &&& family.len() <= t.len()
    &&& t.take(family.len() as int) == family
    &&& (t.len() == family.len() || !is_ascii_lowercase_byte(t[family.len() as int]))
}

proof fn lemma_strip_prefix(s: Seq<u8>, i: int)
    requires
        0 <= i <= s.len(),
        forall|j: int| 0 <= j < i ==> s[j] == ('_' as u8),
        i == s.len() || s[i] != ('_' as u8),
    ensures
        strip_leading_underscores(s) == s.skip(i),
    decreases i,
{
    if i == 0 {
        assert(s.skip(0) =~= s);
    } else {
        let s1 = s.skip(1);
        assert(forall|j: int| 0 <= j < i - 1 ==> s1[j] == ('_' as u8));
        lemma_strip_prefix(s1, i - 1);
        assert(s1.skip(i - 1) =~= s.skip(i));
    }
}

/// Checks whether a given selector is in a given selector family.
pub fn in_selector_family(selector: &[u8], family: &[u8]) -> (r: bool)
    ensures
        r == in_family(selector@, family@),
{
    let n = selector.len();
    let mut i: usize = 0;
    while i < n && selector[i] == ('_' as u8)
        invariant
            n == selector@.len(),
            i <= n,
            forall|j: int| 0 <= j < i ==> selector@[j] == ('_' as u8),
        decreases n - i,
    {
        i = i + 1;
    }
    proof {
        lemma_strip_prefix(selector@, i as int);
    }
    let ghost t = strip_leading_underscores(selector@);
    let m = family.len();
    if n - i < m {
        return false;
    }
    let mut k: usize = 0;
    while k < m
        invariant
            n == selector@.len(),
            m == family@.len(),
            i + m <= n,
            k <= m,
            t == strip_leading_underscores(selector@),
            t == selector@.skip(i as int),
            forall|j: int| 0 <= j < k ==> t[j] == family@[j],
        decreases m - k,
    {
        if selector[i + k] != family[k] {
            proof {
                assert(t[k as int] != family@[k as int]);
                assert(t.take(m as int)[k as int] == t[k as int]);
                assert(t.take(m as int) != family@);
            }
            return false;
        }
        k = k + 1;
    }
    assert(t.take(m as int) =~= family@);
    if n - i == m {
        true
    } else {
        let next = selector[i + m];
        assert(t[m as int] == next);
        !(('a' as u8) <= next && next <= ('z' as u8))
    }
}

/// No selector text is in two families whose names begin with different
/// bytes.
proof fn lemma_distinct_head_exclusive(s: Seq<u8>, f1: Seq<u8>, f2: Seq<u8>)
    requires
        f1.len() > 0,
        f2.len() > 0,
        f1[0] != f2[0],
    ensures
        !(in_family(s, f1) && in_family(s, f2)),
{
    let t = strip_leading_underscores(s);
    if in_family(s, f1) && in_family(s, f2) {
        assert(t.take(f1.len() as int)[0] == t[0]);
        assert(t.take(f2.len() as int)[0] == t[0]);
    }
}

/// Law: the five retain-semantics families are pairwise mutually exclusive —
/// no selector text is in two of them, so classification is never ambiguous.
pub proof fn lemma_families_mutually_exclusive(s: Seq<u8>)
    ensures
        in_family(s, new_family()) ==> !in_family(s, alloc_family()),
        in_family(s, new_family()) ==> !in_family(s, init_family()),
        in_family(s, new_family()) ==> !in_family(s, copy_family()),
        in_family(s, new_family()) ==> !in_family(s, mutable_copy_family()),
        in_family(s, alloc_family()) ==> !in_family(s, init_family()),
        in_family(s, alloc_family()) ==> !in_family(s, copy_family()),
        in_family(s, alloc_family()) ==> !in_family(s, mutable_copy_family()),
        in_family(s, init_family()) ==> !in_family(s, copy_family()),
        in_family(s, init_family()) ==> !in_family(s, mutable_copy_family()),
        in_family(s, copy_family()) ==> !in_family(s, mutable_copy_family()),
{
    lemma_distinct_head_exclusive(s, new_family(), alloc_family());
    lemma_distinct_head_exclusive(s, new_family(), init_family());
    lemma_distinct_head_exclusive(s, new_family(), copy_family());
    lemma_distinct_head_exclusive(s, new_family(), mutable_copy_family());
    lemma_distinct_head_exclusive(s, alloc_family(), init_family());
    lemma_distinct_head_exclusive(s, alloc_family(), copy_family());
    lemma_distinct_head_exclusive(s, alloc_family(), mutable_copy_family());
    lemma_distinct_head_exclusive(s, init_family(), copy_family());
    lemma_distinct_head_exclusive(s, init_family(), mutable_copy_family());
    lemma_distinct_head_exclusive(s, copy_family(), mutable_copy_family());
}

/// A text equal to a non-empty family name that does not start with an
/// underscore is in that family.
pub proof fn lemma_exact_match(f: Seq<u8>)
    requires
        f.len() > 0,
        f[0] != ('_' as u8),
    ensures
        in_family(f, f),
{
    assert(strip_leading_underscores(f) == f);
    assert(f.take(f.len() as int) =~= f);
}

/// A selector whose first byte after underscore-stripping differs from a
/// family's first byte is not in that family.
pub proof fn lemma_head_mismatch(s: Seq<u8>, f: Seq<u8>)
    requires
        f.len() > 0,
        strip_leading_underscores(s).len() == 0 || strip_leading_underscores(s)[0] != f[0],
    ensures
        !in_family(s, f),
{
    let t = strip_leading_underscores(s);
    if in_family(s, f) {
        assert(t.take(f.len() as int)[0] == t[0]);
    }
}

/// The retain-semantics category of a selector text: 1 for the `new` family,
/// 2 for `alloc`, 3 for `init`, 4 for `copy` or `mutableCopy`, and 5 for
/// every other selector.
pub open spec fn spec_retain_semantics(s: Seq<u8>) -> u8 {
    if in_family(s, new_family()) {
        1
    } else if in_family(s, alloc_family()) {
        2
    } else if in_family(s, init_family()) {
        3
    } else if in_family(s, copy_family()) {
        4
    } else if in_family(s, mutable_copy_family()) {
        4
    } else {
        5
    }
}

/// Law: classification is total and deterministic. Every selector text falls
/// in exactly one retain-semantics category, characterised family by family;
/// re-classifying the same text always yields the same category, since the
/// category is a function of the text alone.
pub proof fn lemma_classification_exactly_one(s: Seq<u8>)
    ensures
        1 <= spec_retain_semantics(s) <= 5,
        spec_retain_semantics(s) == 1 <==> in_family(s, new_family()),
        spec_retain_semantics(s) == 2 <==> in_family(s, alloc_family()),
        spec_retain_semantics(s) == 3 <==> in_family(s, init_family()),
        spec_retain_semantics(s) == 4 <==> in_family(s, copy_family()) || in_family(
            s,
            mutable_copy_family(),
        ),
        spec_retain_semantics(s) == 5 <==> !in_family(s, new_family()) && !in_family(
            s,
            alloc_family(),
        ) && !in_family(s, init_family()) && !in_family(s, copy_family()) && !in_family(
            s,
            mutable_copy_family(),
        ),
{
    lemma_families_mutually_exclusive(s);
}

/// Law: leading underscores do not affect family membership — a selector text
/// and the same text with one more leading underscore are in exactly the same
/// families.
pub proof fn lemma_underscores_ignored(s: Seq<u8>, f: Seq<u8>)
    ensures
        in_family(seq![('_' as u8)] + s, f) == in_family(s, f),
{
    let s1 = seq![('_' as u8)] + s;
    assert(s1[0] == ('_' as u8));
    assert(s1.skip(1) =~= s);
}

/// Law: a selector made of underscores alone is in no non-empty family.
pub proof fn lemma_all_underscores_match_nothing(s: Seq<u8>, f: Seq<u8>)
    requires
        forall|j: int| 0 <= j < s.len() ==> s[j] == ('_' as u8),
        f.len() > 0,
    ensures
        !in_family(s, f),
{
    lemma_strip_prefix(s, s.len() as int);
    assert(strip_leading_underscores(s) =~= Seq::<u8>::empty());
}

/// Whether the selector text is in the `mutableCopy` family in particular,
/// which tells a mutable copy from a plain copy inside the shared category.
pub fn is_mutable_copy_selector(s: &str) -> (r: bool)
    ensures
        r == in_family(s.spec_bytes(), mutable_copy_family()),
{
    let fam: [u8; 11] = [
        ('m' as u8),
        ('u' as u8),
        ('t' as u8),
        ('a' as u8),
        ('b' as u8),
        ('l' as u8),
        ('e' as u8),
        ('C' as u8),
        ('o' as u8),
        ('p' as u8),
        ('y' as u8),
    ];
    proof {
        assert(fam@ =~= mutable_copy_family());
    }
    in_selector_family(s.as_bytes(), fam.as_slice())
}

/// The retain-semantics category for a given selector, by its textual family:
/// 1 for `new`, 2 for `alloc`, 3 for `init`, 4 for `copy` or `mutableCopy`,
/// 5 otherwise. Exactly one family ever matches, so the cases never overlap.
pub fn retain_semantics(selector: &str) -> (r: u8)
    ensures
        r == spec_retain_semantics(selector.spec_bytes()),
        1 <= r <= 5,
{
    let b = selector.as_bytes();
    let fam_new: [u8; 3] = [('n' as u8), ('e' as u8), ('w' as u8)];
    let fam_alloc: [u8; 5] = [('a' as u8), ('l' as u8), ('l' as u8), ('o' as u8), ('c' as u8)];
    let fam_init: [u8; 4] = [('i' as u8), ('n' as u8), ('i' as u8), ('t' as u8)];
    let fam_copy: [u8; 4] = [('c' as u8), ('o' as u8), ('p' as u8), ('y' as u8)];
    let fam_mutable_copy: [u8; 11] = [
        ('m' as u8),
        ('u' as u8),
        ('t' as u8),
        ('a' as u8),
        ('b' as u8),
        ('l' as u8),
        ('e' as u8),
        ('C' as u8),
        ('o' as u8),
        ('p' as u8),
        ('y' as u8),
    ];
    proof {
        assert(fam_new@ =~= new_family());
        assert(fam_alloc@ =~= alloc_family());
        assert(fam_init@ =~= init_family());
        assert(fam_copy@ =~= copy_family());
        assert(fam_mutable_copy@ =~= mutable_copy_family());
    }
    if in_selector_family(b, fam_new.as_slice()) {
        1
    } else if in_selector_family(b, fam_alloc.as_slice()) {
        2
    } else if in_selector_family(b, fam_init.as_slice()) {
        3
    } else if in_selector_family(b, fam_copy.as_slice()) {
        4
    } else if in_selector_family(b, fam_mutable_copy.as_slice()) {
        4
    } else {
        5
    }
}

} // verus!
