//! Ordering identifiers and removing the repeated ones.

use vstd::prelude::*;

verus! {

/// How two texts stand to each other in the order of strings.
#[derive(Debug, Clone, Copy, PartialEq, Eq, Structural)]
pub enum Standing {
    Before,
    Same,
    After,
}

/// Whether `a` and `b` agree on their first `k` characters and `a` is the
/// smaller one from there: it ends at `k` while `b` goes on, or its character
/// at `k` is the smaller one.
pub open spec fn parts_at(a: Seq<char>, b: Seq<char>, k: int) -> bool {
    &&& 0 <= k <= a.len()
    &&& k <= b.len()
    &&& forall|j: int| 0 <= j < k ==> a[j] == b[j]
    &&& if k == a.len() {
        k < b.len()
    } else {
        k < b.len() && (a[k] as u32) < (b[k] as u32)
    }
}

/// The order of strings: `a` comes strictly before `b`, character by
/// character.
pub open spec fn text_lt(a: Seq<char>, b: Seq<char>) -> bool {
    exists|k: int| parts_at(a, b, k)
}

/// The texts of a sequence of strings.
pub open spec fn texts(ids: Seq<String>) -> Seq<Seq<char>> {
    Seq::new(ids.len(), |i: int| ids[i]@)
}

/// Whether every text of `s` comes strictly before all that follow it.
pub open spec fn strictly_ascending(s: Seq<Seq<char>>) -> bool {
    forall|i: int, j: int| 0 <= i < j < s.len() ==> text_lt(s[i], s[j])
}

/// No text comes before itself.
pub proof fn lemma_text_lt_irreflexive(a: Seq<char>)
    ensures
        !text_lt(a, a),
{
}

/// The order of strings is transitive.
pub proof fn lemma_text_lt_transitive(a: Seq<char>, b: Seq<char>, c: Seq<char>)
    requires
        text_lt(a, b),
        text_lt(b, c),
    ensures
        text_lt(a, c),
{
    let k1 = choose|k: int| parts_at(a, b, k);
    let k2 = choose|k: int| parts_at(b, c, k);
    if k1 <= k2 {
        assert(parts_at(a, c, k1));
    } else {
        assert(parts_at(a, c, k2));
    }
}

/// A strictly ascending sequence holds no text twice.
pub proof fn lemma_ascending_is_duplicate_free(s: Seq<Seq<char>>)
    requires
        strictly_ascending(s),
    ensures
        s.no_duplicates(),
{
    assert forall|i: int, j: int| 0 <= i < s.len() && 0 <= j < s.len() && i != j implies s[i]
        != s[j] by {
        lemma_text_lt_irreflexive(s[i]);
        if i < j {
            assert(text_lt(s[i], s[j]));
        } else {
            assert(text_lt(s[j], s[i]));
        }
    }
}

/// A strictly ascending sequence is fixed by the texts it holds: two such
/// sequences that hold the same texts are the same sequence.
pub proof fn law_ascending_sequence_is_determined(a: Seq<Seq<char>>, b: Seq<Seq<char>>)
    requires
        strictly_ascending(a),
        strictly_ascending(b),
        forall|t: Seq<char>| a.contains(t) <==> b.contains(t),
    ensures
        a == b,
    decreases a.len(),
{
    if a.len() == 0 {
        if b.len() > 0 {
            assert(b.contains(b[0]));
        }
        assert(a =~= b);
    } else if b.len() == 0 {
        assert(a.contains(a[0]));
    } else {
        let x = a.last();
        let y = b.last();
        assert(a.contains(x));
        assert(b.contains(y));
        let i = choose|i: int| 0 <= i < b.len() && b[i] == x;
        let j = choose|j: int| 0 <= j < a.len() && a[j] == y;
        lemma_text_lt_irreflexive(x);
        if i < b.len() - 1 {
            assert(text_lt(b[i], y));
            if j < a.len() - 1 {
                assert(text_lt(a[j], x));
                lemma_text_lt_transitive(x, y, x);
            }
        }
        assert(x == y);
        let a0 = a.drop_last();
        let b0 = b.drop_last();
        assert forall|t: Seq<char>| a0.contains(t) <==> b0.contains(t) by {
            if a0.contains(t) {
                let k = choose|k: int| 0 <= k < a0.len() && a0[k] == t;
                assert(a[k] == t);
                assert(text_lt(a[k], x));
                assert(a.contains(t));
                let m = choose|m: int| 0 <= m < b.len() && b[m] == t;
                assert(m < b.len() - 1);
                assert(b0[m] == t);
            }
            if b0.contains(t) {
                let k = choose|k: int| 0 <= k < b0.len() && b0[k] == t;
                assert(b[k] == t);
                assert(text_lt(b[k], y));
                assert(b.contains(t));
                let m = choose|m: int| 0 <= m < a.len() && a[m] == t;
                assert(m < a.len() - 1);
                assert(a0[m] == t);
            }
        }
        assert(strictly_ascending(a0)) by {
            assert forall|p: int, q: int| 0 <= p < q < a0.len() implies text_lt(a0[p], a0[q]) by {
                assert(text_lt(a[p], a[q]));
            }
        }
        assert(strictly_ascending(b0)) by {
            assert forall|p: int, q: int| 0 <= p < q < b0.len() implies text_lt(b0[p], b0[q]) by {
                assert(text_lt(b[p], b[q]));
            }
        }
        law_ascending_sequence_is_determined(a0, b0);
        assert(a =~= a0.push(x));
        assert(b =~= b0.push(y));
    }
}

/// Compares two strings in the order of strings.
pub fn text_standing(a: &str, b: &str) -> (standing: Standing)
    ensures
        standing == Standing::Before <==> text_lt(a@, b@),
        standing == Standing::Same <==> a@ == b@,
        standing == Standing::After <==> text_lt(b@, a@),
{
    let n = a.unicode_len();
    let m = b.unicode_len();
    let mut i: usize = 0;
    while i < n && i < m
        invariant
            n == a@.len(),
            m == b@.len(),
            i <= n,
            i <= m,
            forall|j: int| 0 <= j < i ==> a@[j] == b@[j],
        decreases n - i,
    {
        let x = a.get_char(i);
        let y = b.get_char(i);
        if x != y {
            proof {
                lemma_first_difference_decides(a@, b@, i as int);
            }
            if (x as u32) < (y as u32) {
                return Standing::Before;
            } else {
                return Standing::After;
            }
        }
        i += 1;
    }
    proof {
        lemma_common_prefix_decides(a@, b@, i as int);
    }
    if n < m {
        Standing::Before
    } else if m < n {
        Standing::After
    } else {
        Standing::Same
    }
}

/// Two texts that first differ at `k` stand as their characters at `k` do.
proof fn lemma_first_difference_decides(a: Seq<char>, b: Seq<char>, k: int)
    requires
        0 <= k < a.len(),
        k < b.len(),
        forall|j: int| 0 <= j < k ==> a[j] == b[j],
        a[k] != b[k],
    ensures
        a != b,
        text_lt(a, b) <==> (a[k] as u32) < (b[k] as u32),
        text_lt(b, a) <==> (b[k] as u32) < (a[k] as u32),
{
    if (a[k] as u32) < (b[k] as u32) {
        assert(parts_at(a, b, k));
    }
    if (b[k] as u32) < (a[k] as u32) {
        assert(parts_at(b, a, k));
    }
    assert forall|h: int| parts_at(a, b, h) implies h == k && (a[k] as u32) < (b[k] as u32) by {
        if h < k {
            assert(a[h] == b[h]);
        }
    }
    assert forall|h: int| parts_at(b, a, h) implies h == k && (b[k] as u32) < (a[k] as u32) by {
        if h < k {
            assert(a[h] == b[h]);
        }
    }
}

/// Where one of two texts is a prefix of the other, the shorter comes first.
proof fn lemma_common_prefix_decides(a: Seq<char>, b: Seq<char>, k: int)
    requires
        0 <= k <= a.len(),
        k <= b.len(),
        k == a.len() || k == b.len(),
        forall|j: int| 0 <= j < k ==> a[j] == b[j],
    ensures
        text_lt(a, b) <==> a.len() < b.len(),
        text_lt(b, a) <==> b.len() < a.len(),
        a == b <==> a.len() == b.len(),
{
    if a.len() < b.len() {
        assert(parts_at(a, b, k));
    }
    if b.len() < a.len() {
        assert(parts_at(b, a, k));
    }
    if a.len() == b.len() {
        assert(a =~= b);
    }
    assert forall|h: int| parts_at(a, b, h) implies a.len() < b.len() by {
        if h < k {
            assert(a[h] == b[h]);
        }
    }
    assert forall|h: int| parts_at(b, a, h) implies b.len() < a.len() by {
        if h < k {
            assert(a[h] == b[h]);
        }
    }
}

/// The identifiers of `ids` in ascending order, each one once: what sorting
/// `ids` and dropping the repeated neighbours leaves.
pub fn sorted_unique(ids: &Vec<String>) -> (out: Vec<String>)
    ensures
        strictly_ascending(texts(out@)),
        texts(out@).no_duplicates(),
        forall|t: Seq<char>| texts(out@).contains(t) <==> texts(ids@).contains(t),
        out@.len() <= ids@.len(),
{
    let mut out: Vec<String> = Vec::new();
    let mut i: usize = 0;
    while i < ids.len()
        invariant
            i <= ids.len(),
            out@.len() <= i,
            strictly_ascending(texts(out@)),
            forall|t: Seq<char>|
                texts(out@).contains(t) <==> texts(ids@.take(i as int)).contains(t),
        decreases ids.len() - i,
    {
        let ghost before = out@;
        let ghost seen = texts(ids@.take(i as int));
        let ghost next = texts(ids@.take(i + 1));
        let ghost x = ids@[i as int]@;
        let id = &ids[i];
        let mut p: usize = 0;
        let mut present = false;
        let mut passed = false;
        while p < out.len()
            invariant
                p <= out.len(),
                out@ == before,
                id@ == x,
                forall|j: int| 0 <= j < p ==> text_lt(#[trigger] texts(before)[j], x),
                present ==> p < out.len() && texts(before)[p as int] == x,
                passed ==> p < out.len() && text_lt(x, texts(before)[p as int]),
                !(present && passed),
            ensures
                p < out.len() ==> present || passed,
            decreases out.len() - p,
        {
            assert(texts(before)[p as int] == out@[p as int]@);
            match text_standing(out[p].as_str(), id.as_str()) {
                Standing::Before => {
                    p += 1;
                },
                Standing::Same => {
                    present = true;
                    break ;
                },
                Standing::After => {
                    passed = true;
                    break ;
                },
            }
        }
        proof {
            assert(next =~= seen.push(x));
            assert forall|t: Seq<char>| next.contains(t) <==> (seen.contains(t) || t == x) by {
                if next.contains(t) {
                    let k = choose|k: int| 0 <= k < next.len() && next[k] == t;
                    if k < seen.len() {
                        assert(seen[k] == t);
                    }
                }
                if seen.contains(t) {
                    let k = choose|k: int| 0 <= k < seen.len() && seen[k] == t;
                    assert(next[k] == t);
                }
                if t == x {
                    assert(next[seen.len() as int] == t);
                }
            }
        }
        if present {
            proof {
                assert(texts(before).contains(x));
            }
        } else {
            out.insert(p, id.clone());
            proof {
                let old_texts = texts(before);
                let new_texts = texts(out@);
                assert(new_texts =~= old_texts.insert(p as int, x));
                assert forall|a: int, b: int| 0 <= a < b < new_texts.len() implies text_lt(
                    new_texts[a],
                    new_texts[b],
                ) by {
                    if b < p {
                        assert(text_lt(old_texts[a], old_texts[b]));
                    } else if b == p {
                        assert(text_lt(old_texts[a], x));
                    } else if a == p {
                        assert(passed);
                        if b - 1 > p {
                            assert(text_lt(old_texts[p as int], old_texts[b - 1]));
                            lemma_text_lt_transitive(x, old_texts[p as int], old_texts[b - 1]);
                        }
                    } else if a < p {
                        assert(text_lt(old_texts[a], old_texts[b - 1]));
                    } else {
                        assert(text_lt(old_texts[a - 1], old_texts[b - 1]));
                    }
                }
                assert forall|t: Seq<char>| new_texts.contains(t) <==> (old_texts.contains(t) || t
                    == x) by {
                    if new_texts.contains(t) {
                        let k = choose|k: int| 0 <= k < new_texts.len() && new_texts[k] == t;
                        if k < p {
                            assert(old_texts[k] == t);
                        } else if k > p {
                            assert(old_texts[k - 1] == t);
                        }
                    }
                    if old_texts.contains(t) {
                        let k = choose|k: int| 0 <= k < old_texts.len() && old_texts[k] == t;
                        if k < p {
                            assert(new_texts[k] == t);
                        } else {
                            assert(new_texts[k + 1] == t);
                        }
                    }
                    if t == x {
                        assert(new_texts[p as int] == t);
                    }
                }
            }
        }
        i += 1;
    }
    proof {
        assert(ids@.take(ids@.len() as int) == ids@);
        lemma_ascending_is_duplicate_free(texts(out@));
    }
    out
}

} // verus!
