//! Ordering of texts and the sorted, duplicate-free list of changed paths.
//!
//! Texts are ordered lexicographically by the code points of their
//! characters. Since UTF-8 keeps the order of code points, this is the same
//! order in which std compares `str` values by their bytes.

use vstd::prelude::*;

verus! {

/// Lexicographic "strictly before" on character sequences.
pub open spec fn text_lt(a: Seq<char>, b: Seq<char>) -> bool
    decreases a.len(),
{
    if a.len() == 0 {
        b.len() > 0
    } else if b.len() == 0 {
        false
    } else if a[0] != b[0] {
        (a[0] as int) < (b[0] as int)
    } else {
        text_lt(a.drop_first(), b.drop_first())
    }
}

/// Every text comes strictly before every later one: sorted, no duplicates.
pub open spec fn strictly_sorted(s: Seq<Seq<char>>) -> bool {
    forall|i: int, j: int| 0 <= i < j < s.len() ==> #[trigger] text_lt(s[i], s[j])
}

/// The character sequences of a list of strings.
pub open spec fn texts(v: Seq<String>) -> Seq<Seq<char>> {
    v.map_values(|s: String| s@)
}

/// The character sequences of the entries of `v` that are present.
pub open spec fn present_texts(v: Seq<Option<String>>) -> Set<Seq<char>> {
    Set::new(|t: Seq<char>| exists|i: int| 0 <= i < v.len() && #[trigger] v[i] is Some && v[i]->0@ == t)
}

/// Result of comparing two texts.
#[derive(Debug, PartialEq, Eq, Structural, Clone, Copy)]
pub enum TextOrder {
    Before,
    Same,
    After,
}

pub proof fn lemma_text_lt_irreflexive(a: Seq<char>)
    ensures
        !text_lt(a, a),
    decreases a.len(),
{
    if a.len() > 0 {
        lemma_text_lt_irreflexive(a.drop_first());
    }
}

pub proof fn lemma_text_lt_asymmetric(a: Seq<char>, b: Seq<char>)
    requires
        text_lt(a, b),
    ensures
        !text_lt(b, a),
    decreases a.len(),
{
    if a.len() > 0 && b.len() > 0 && a[0] == b[0] {
        lemma_text_lt_asymmetric(a.drop_first(), b.drop_first());
    }
}

pub proof fn lemma_text_lt_transitive(a: Seq<char>, b: Seq<char>, c: Seq<char>)
    requires
        text_lt(a, b),
        text_lt(b, c),
    ensures
        text_lt(a, c),
    decreases a.len(),
{
    if a.len() > 0 && b.len() > 0 && c.len() > 0 && a[0] == b[0] && b[0] == c[0] {
        lemma_text_lt_transitive(a.drop_first(), b.drop_first(), c.drop_first());
    }
}

pub proof fn lemma_text_lt_total(a: Seq<char>, b: Seq<char>)
    requires
        a != b,
    ensures
        text_lt(a, b) || text_lt(b, a),
    decreases a.len(),
{
    if a.len() == 0 && b.len() == 0 {
        assert(a =~= b);
    } else if a.len() > 0 && b.len() > 0 && a[0] != b[0] {
        assert((a[0] as int) != (b[0] as int));
    } else if a.len() > 0 && b.len() > 0 && a[0] == b[0] {
        if a.drop_first() == b.drop_first() {
            assert(a =~= seq![a[0]] + a.drop_first());
            assert(b =~= seq![b[0]] + b.drop_first());
        }
        lemma_text_lt_total(a.drop_first(), b.drop_first());
    }
}

/// Comparing two texts with an equal prefix of length `i` comes down to
/// comparing what follows it.
proof fn lemma_text_lt_skip(a: Seq<char>, b: Seq<char>, i: int)
    requires
        0 <= i <= a.len(),
        i <= b.len(),
        forall|j: int| 0 <= j < i ==> a[j] == b[j],
    ensures
        text_lt(a, b) == text_lt(a.skip(i), b.skip(i)),
    decreases i,
{
    if i > 0 {
        lemma_text_lt_skip(a.drop_first(), b.drop_first(), i - 1);
        assert(a.drop_first().skip(i - 1) =~= a.skip(i));
        assert(b.drop_first().skip(i - 1) =~= b.skip(i));
    } else {
        assert(a.skip(0) =~= a);
        assert(b.skip(0) =~= b);
    }
}

/// Compares two texts character by character.
pub fn compare_text(a: &str, b: &str) -> (o: TextOrder)
    ensures
        (o == TextOrder::Before) == text_lt(a@, b@),
        (o == TextOrder::Same) == (a@ == b@),
        (o == TextOrder::After) == text_lt(b@, a@),
{
    let la = a.unicode_len();
    let lb = b.unicode_len();
    let mut i: usize = 0;
    while i < la && i < lb
        invariant
            la == a@.len(),
            lb == b@.len(),
            i <= la,
            i <= lb,
            forall|j: int| 0 <= j < i ==> a@[j] == b@[j],
        decreases la - i,
    {
        let ca = a.get_char(i);
        let cb = b.get_char(i);
        if (ca as u32) != (cb as u32) {
            proof {
                lemma_text_lt_skip(a@, b@, i as int);
                lemma_text_lt_skip(b@, a@, i as int);
                assert(a@.skip(i as int)[0] == ca);
                assert(b@.skip(i as int)[0] == cb);
                if a@ == b@ {
                    assert(a@[i as int] == b@[i as int]);
                }
            }
            if (ca as u32) < (cb as u32) {
                return TextOrder::Before;
            } else {
                return TextOrder::After;
            }
        }
        i = i + 1;
    }
    proof {
        lemma_text_lt_skip(a@, b@, i as int);
        lemma_text_lt_skip(b@, a@, i as int);
        if la == lb {
            assert(a@ =~= b@);
            lemma_text_lt_irreflexive(a@);
        } else if la < lb {
            assert(a@.skip(i as int).len() == 0);
            if a@ == b@ {
                assert(a@.len() == b@.len());
            }
        } else {
            assert(b@.skip(i as int).len() == 0);
            if a@ == b@ {
                assert(a@.len() == b@.len());
            }
        }
    }
    if la == lb {
        TextOrder::Same
    } else if la < lb {
        TextOrder::Before
    } else {
        TextOrder::After
    }
}

/// Finds where `s` belongs in the strictly sorted list `out`: the first
/// position whose text does not come before `s`, and whether `s` is there.
fn find_slot(out: &Vec<String>, s: &String) -> (r: (usize, bool))
    requires
        strictly_sorted(texts(out@)),
    ensures
        r.0 <= out@.len(),
        forall|i: int| 0 <= i < r.0 ==> text_lt(#[trigger] out@[i]@, s@),
        r.1 ==> r.0 < out@.len() && out@[r.0 as int]@ == s@,
        !r.1 && r.0 < out@.len() ==> text_lt(s@, out@[r.0 as int]@),
{
    let n = out.len();
    let mut k: usize = 0;
    while k < n
        invariant
            n == out@.len(),
            k <= n,
            forall|i: int| 0 <= i < k ==> text_lt(#[trigger] out@[i]@, s@),
        decreases n - k,
    {
        match compare_text(out[k].as_str(), s.as_str()) {
            TextOrder::Before => {
                k = k + 1;
            },
            TextOrder::Same => {
                return (k, true);
            },
            TextOrder::After => {
                return (k, false);
            },
        }
    }
    (k, false)
}

/// Adds `s` to the strictly sorted list `out`, unless it is already there.
fn insert_sorted(out: &mut Vec<String>, s: String)
    requires
        strictly_sorted(texts(old(out)@)),
    ensures
        strictly_sorted(texts(final(out)@)),
        texts(final(out)@).to_set() == texts(old(out)@).to_set().insert(s@),
{
    let (k, found) = find_slot(out, &s);
    let ghost t = texts(out@);
    if found {
        assert(t[k as int] == s@);
        assert(t.to_set() =~= t.to_set().insert(s@));
        return;
    }
    let ghost sv = s@;
    proof {
        assert forall|j: int| k <= j < t.len() implies #[trigger] text_lt(sv, t[j]) by {
            if j > k {
                lemma_text_lt_transitive(sv, t[k as int], t[j]);
            }
        }
    }
    out.insert(k, s);
    let ghost t2 = texts(out@);
    assert(t2 =~= t.insert(k as int, sv));
    assert forall|i: int, j: int| 0 <= i < j < t2.len() implies #[trigger] text_lt(t2[i], t2[j]) by {
        if j < k {
        } else if i < k && j == k {
        } else if i < k && j > k {
            assert(t2[j] == t[j - 1]);
            assert(text_lt(t[i], t[j - 1]));
        } else if i == k {
            assert(t2[j] == t[j - 1]);
        } else {
            assert(t2[i] == t[i - 1]);
            assert(t2[j] == t[j - 1]);
        }
    }
    assert forall|x: Seq<char>| t2.to_set().contains(x) <==> t.to_set().insert(sv).contains(x) by {
        if t2.contains(x) {
            let m = choose|m: int| 0 <= m < t2.len() && t2[m] == x;
            if m < k {
                assert(t[m] == x);
            } else if m > k {
                assert(t[m - 1] == x);
            }
        }
        if t.contains(x) {
            let m = choose|m: int| 0 <= m < t.len() && t[m] == x;
            if m < k {
                assert(t2[m] == x);
            } else {
                assert(t2[m + 1] == x);
            }
        }
        if x == sv {
            assert(t2[k as int] == x);
        }
    }
    assert(t2.to_set() =~= t.to_set().insert(sv));
}

/// Sorts the present paths and drops duplicates; absent paths are skipped.
pub fn normalize_changed_files(paths: &Vec<Option<String>>) -> (files: Vec<String>)
    ensures
        strictly_sorted(texts(files@)),
        texts(files@).to_set() == present_texts(paths@),
{
    let mut out: Vec<String> = Vec::new();
    let n = paths.len();
    assert(texts(out@).to_set() =~= present_texts(paths@.take(0)));
    for i in 0..n
        invariant
            n == paths@.len(),
            strictly_sorted(texts(out@)),
            texts(out@).to_set() == present_texts(paths@.take(i as int)),
    {
        let ghost before = present_texts(paths@.take(i as int));
        let ghost after = present_texts(paths@.take(i + 1));
        assert(paths@.take(i + 1).drop_last() =~= paths@.take(i as int));
        match &paths[i] {
            Some(s) => {
                insert_sorted(&mut out, s.clone());
                assert forall|x: Seq<char>| after.contains(x) <==> before.insert(s@).contains(x) by {
                    if after.contains(x) {
                        let m = choose|m: int| 0 <= m < i + 1 && #[trigger] paths@.take(i + 1)[m] is Some
                            && paths@.take(i + 1)[m]->0@ == x;
                        if m < i {
                            assert(paths@.take(i as int)[m] == paths@.take(i + 1)[m]);
                        }
                    }
                    if before.contains(x) {
                        let m = choose|m: int| 0 <= m < i && #[trigger] paths@.take(i as int)[m] is Some
                            && paths@.take(i as int)[m]->0@ == x;
                        assert(paths@.take(i + 1)[m] == paths@.take(i as int)[m]);
                    }
                    if x == s@ {
                        assert(paths@.take(i + 1)[i as int] is Some);
                    }
                }
                assert(after =~= before.insert(s@));
            },
            None => {
                assert forall|x: Seq<char>| after.contains(x) <==> before.contains(x) by {
                    if after.contains(x) {
                        let m = choose|m: int| 0 <= m < i + 1 && #[trigger] paths@.take(i + 1)[m] is Some
                            && paths@.take(i + 1)[m]->0@ == x;
                        assert(paths@.take(i as int)[m] == paths@.take(i + 1)[m]);
                    }
                    if before.contains(x) {
                        let m = choose|m: int| 0 <= m < i && #[trigger] paths@.take(i as int)[m] is Some
                            && paths@.take(i as int)[m]->0@ == x;
                        assert(paths@.take(i + 1)[m] == paths@.take(i as int)[m]);
                    }
                }
                assert(after =~= before);
            },
        }
    }
    assert(paths@.take(n as int) =~= paths@);
    out
}

/// Two lists that are both sorted without duplicates and hold the same texts
/// are the same list. So the list of changed files depends only on which
/// paths were reported, not on their order or on repetitions.
pub proof fn law_sorted_list_determined_by_its_texts(a: Seq<Seq<char>>, b: Seq<Seq<char>>)
    requires
        strictly_sorted(a),
        strictly_sorted(b),
        a.to_set() == b.to_set(),
    ensures
        a == b,
    decreases a.len(),
{
    if a.len() == 0 {
        if b.len() > 0 {
            assert(b.to_set().contains(b[0]));
        }
        assert(a =~= b);
    } else {
        assert(a.to_set().contains(a[0]));
        assert(b.contains(a[0]));
        let m = choose|m: int| 0 <= m < b.len() && b[m] == a[0];
        assert(a.contains(b[0])) by {
            assert(b.to_set().contains(b[0]));
        }
        let p = choose|p: int| 0 <= p < a.len() && a[p] == b[0];
        if m > 0 {
            assert(text_lt(b[0], b[m]));
            if p > 0 {
                assert(text_lt(a[0], a[p]));
                lemma_text_lt_asymmetric(a[0], b[0]);
            } else {
                lemma_text_lt_irreflexive(a[0]);
            }
        }
        assert(a[0] == b[0]);
        let a1 = a.drop_first();
        let b1 = b.drop_first();
        assert forall|x: Seq<char>| a1.to_set().contains(x) <==> b1.to_set().contains(x) by {
            if a1.contains(x) {
                let i = choose|i: int| 0 <= i < a1.len() && a1[i] == x;
                assert(a[i + 1] == x);
                assert(a.to_set().contains(x));
                let j = choose|j: int| 0 <= j < b.len() && b[j] == x;
                assert(text_lt(a[0], a[i + 1]));
                if j == 0 {
                    lemma_text_lt_irreflexive(x);
                }
                assert(b1[j - 1] == x);
            }
            if b1.contains(x) {
                let i = choose|i: int| 0 <= i < b1.len() && b1[i] == x;
                assert(b[i + 1] == x);
                assert(b.to_set().contains(x));
                let j = choose|j: int| 0 <= j < a.len() && a[j] == x;
                assert(text_lt(b[0], b[i + 1]));
                if j == 0 {
                    lemma_text_lt_irreflexive(x);
                }
                assert(a1[j - 1] == x);
            }
        }
        assert(a1.to_set() =~= b1.to_set());
        assert forall|i: int, j: int| 0 <= i < j < a1.len() implies #[trigger] text_lt(a1[i], a1[j]) by {
            assert(text_lt(a[i + 1], a[j + 1]));
        }
        assert forall|i: int, j: int| 0 <= i < j < b1.len() implies #[trigger] text_lt(b1[i], b1[j]) by {
            assert(text_lt(b[i + 1], b[j + 1]));
        }
        law_sorted_list_determined_by_its_texts(a1, b1);
        assert(a =~= seq![a[0]] + a1);
        assert(b =~= seq![b[0]] + b1);
    }
}

} // verus!
