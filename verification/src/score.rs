//! Score bookkeeping: the current round score with the best score seen, and
//! the persisted top-8 high-score list, kept sorted descending.

use vstd::prelude::*;

verus! {

/// Number of entries the high-score list keeps.
pub const HIGH_SCORE_LEN: usize = 8;

/// Round score ledger: `Score(current, best)`.
#[derive(Clone, Copy, Debug, PartialEq, Eq, Structural)]
pub struct Score(pub i32, pub i32);

/// The persisted high-score list: 8 entries, sorted descending. The
/// persistence collaborator loads and saves it; a missing or corrupt store
/// falls back to `HighScore::default_list()`.
#[derive(Clone, Copy, Debug, PartialEq, Eq)]
pub struct HighScore(pub [i32; 8]);

impl HighScore {
    /// The list is sorted descending.
    pub open spec fn wf(self) -> bool {
        sorted_desc(self.0@)
    }

    /// The all-zero list used when no persisted store can be read.
    pub fn default_list() -> (hs: HighScore)
        ensures
            hs.wf(),
            forall|i: int| 0 <= i < 8 ==> hs.0@[i] == 0,
    {
        HighScore([0, 0, 0, 0, 0, 0, 0, 0])
    }

    /// Checks that the list is sorted descending: the well-formedness the
    /// ledger expects of a loaded store. A loader treats a list that fails
    /// this check as corrupt and falls back to the default list.
    pub fn is_sorted(&self) -> (r: bool)
        ensures
            r == self.wf(),
    {
        let mut i: usize = 0;
        while i < HIGH_SCORE_LEN - 1
            invariant
                0 <= i <= 7,
                forall|k: int| 0 <= k < i ==> #[trigger] self.0@[k] >= self.0@[k + 1],
            decreases 7 - i,
        {
            if self.0[i] < self.0[i + 1] {
                // one out-of-order neighbouring pair refutes sortedness
                assert(!sorted_desc(self.0@));
                return false;
            }
            i = i + 1;
        }
        proof {
            assert forall|a: int, b: int| 0 <= a <= b < self.0@.len() implies self.0@[a]
                >= self.0@[b] by {
                lemma_adjacent_ge(self.0@, a, b);
            }
        }
        true
    }
}

/// Descending order of every neighbouring pair carries to every pair.
proof fn lemma_adjacent_ge(s: Seq<i32>, i: int, j: int)
    requires
        forall|k: int| 0 <= k < s.len() - 1 ==> #[trigger] s[k] >= s[k + 1],
        0 <= i <= j < s.len(),
    ensures
        s[i] >= s[j],
    decreases j - i,
{
    if i < j {
        lemma_adjacent_ge(s, i, j - 1);
    }
}

/// `s` is sorted in descending order.
pub open spec fn sorted_desc(s: Seq<i32>) -> bool {
    forall|i: int, j: int| 0 <= i <= j < s.len() ==> s[i] >= s[j]
}

/// `v` insertion-sorted into the descending list `s`, keeping the length:
/// every entry from the insertion point on shifts down one slot and the last
/// entry falls off.
pub open spec fn spec_insert_desc(s: Seq<i32>, v: i32) -> Seq<i32>
    decreases s.len(),
{
    if s.len() == 0 {
        s
    } else if v > s[0] {
        seq![v] + s.drop_last()
    } else {
        seq![s[0]] + spec_insert_desc(s.drop_first(), v)
    }
}

/// Insertion keeps the length of the list.
pub proof fn lemma_insert_desc_len(s: Seq<i32>, v: i32)
    ensures
        spec_insert_desc(s, v).len() == s.len(),
    decreases s.len(),
{
    if s.len() == 0 {
    } else if v > s[0] {
    } else {
        lemma_insert_desc_len(s.drop_first(), v);
    }
}

/// A suffix of a sorted list is sorted.
proof fn lemma_sorted_drop_first(s: Seq<i32>)
    requires
        sorted_desc(s),
        s.len() > 0,
    ensures
        sorted_desc(s.drop_first()),
{
    assert forall|i: int, j: int| 0 <= i <= j < s.drop_first().len() implies s.drop_first()[i]
        >= s.drop_first()[j] by {
        assert(s.drop_first()[i] == s[i + 1]);
        assert(s.drop_first()[j] == s[j + 1]);
    }
}

/// Inserting a value at least as large as the head of a sorted list shifts
/// the whole list down one slot, whether or not the head equals the value.
proof fn lemma_insert_desc_ge_head(s: Seq<i32>, v: i32)
    requires
        sorted_desc(s),
        s.len() > 0,
        v >= s[0],
    ensures
        spec_insert_desc(s, v) =~= seq![v] + s.drop_last(),
    decreases s.len(),
{
    if v > s[0] {
    } else {
        // v == s[0]
        if s.len() == 1 {
            assert(spec_insert_desc(s.drop_first(), v) =~= Seq::<i32>::empty());
        } else {
            lemma_sorted_drop_first(s);
            assert(s.drop_first()[0] == s[1]);
            lemma_insert_desc_ge_head(s.drop_first(), v);
            assert(spec_insert_desc(s, v) =~= seq![s[0]] + (seq![v]
                + s.drop_first().drop_last()));
            assert(s.drop_last() =~= seq![s[0]] + s.drop_first().drop_last());
        }
    }
}

/// Every entry of the inserted list is bounded by any bound on `v` and on
/// the prior entries.
proof fn lemma_insert_desc_bound(s: Seq<i32>, v: i32, b: i32)
    requires
        v <= b,
        forall|i: int| 0 <= i < s.len() ==> s[i] <= b,
    ensures
        forall|i: int| 0 <= i < spec_insert_desc(s, v).len() ==> spec_insert_desc(s, v)[i] <= b,
    decreases s.len(),
{
    if s.len() == 0 {
    } else if v > s[0] {
        assert forall|i: int| 0 <= i < spec_insert_desc(s, v).len() implies spec_insert_desc(
            s,
            v,
        )[i] <= b by {
            if i > 0 {
                assert(spec_insert_desc(s, v)[i] == s.drop_last()[i - 1]);
                assert(s.drop_last()[i - 1] == s[i - 1]);
            }
        }
    } else {
        assert(forall|i: int| 0 <= i < s.drop_first().len() ==> s.drop_first()[i] == s[i + 1]);
        lemma_insert_desc_bound(s.drop_first(), v, b);
        lemma_insert_desc_len(s.drop_first(), v);
        assert forall|i: int| 0 <= i < spec_insert_desc(s, v).len() implies spec_insert_desc(
            s,
            v,
        )[i] <= b by {
            if i > 0 {
                assert(spec_insert_desc(s, v)[i] == spec_insert_desc(s.drop_first(), v)[i - 1]);
            }
        }
    }
}

/// Insertion into a sorted list yields a sorted list.
pub proof fn lemma_insert_desc_sorted(s: Seq<i32>, v: i32)
    requires
        sorted_desc(s),
    ensures
        sorted_desc(spec_insert_desc(s, v)),
    decreases s.len(),
{
    if s.len() == 0 {
    } else if v > s[0] {
        let r = spec_insert_desc(s, v);
        assert forall|i: int, j: int| 0 <= i <= j < r.len() implies r[i] >= r[j] by {
            if i > 0 {
                assert(r[i] == s.drop_last()[i - 1]);
                assert(r[j] == s.drop_last()[j - 1]);
            } else if j > 0 {
                assert(r[j] == s.drop_last()[j - 1]);
            }
        }
    } else {
        lemma_sorted_drop_first(s);
        lemma_insert_desc_sorted(s.drop_first(), v);
        lemma_insert_desc_len(s.drop_first(), v);
        assert(forall|i: int| 0 <= i < s.drop_first().len() ==> s.drop_first()[i] == s[i + 1]);
        lemma_insert_desc_bound(s.drop_first(), v, s[0]);
        let r = spec_insert_desc(s, v);
        let rest = spec_insert_desc(s.drop_first(), v);
        assert forall|i: int, j: int| 0 <= i <= j < r.len() implies r[i] >= r[j] by {
            if i > 0 {
                assert(r[i] == rest[i - 1]);
                assert(r[j] == rest[j - 1]);
            } else if j > 0 {
                assert(r[j] == rest[j - 1]);
            }
        }
    }
}

/// High-score monotonicity: no slot of the list ever decreases when a round
/// score is merged in.
pub proof fn lemma_insert_desc_monotone(s: Seq<i32>, v: i32)
    requires
        sorted_desc(s),
    ensures
        forall|i: int| 0 <= i < s.len() ==> spec_insert_desc(s, v)[i] >= s[i],
    decreases s.len(),
{
    if s.len() == 0 {
    } else if v > s[0] {
        let r = spec_insert_desc(s, v);
        assert forall|i: int| 0 <= i < s.len() implies r[i] >= s[i] by {
            if i > 0 {
                assert(r[i] == s.drop_last()[i - 1]);
                assert(s.drop_last()[i - 1] == s[i - 1]);
            }
        }
    } else {
        lemma_sorted_drop_first(s);
        lemma_insert_desc_monotone(s.drop_first(), v);
        lemma_insert_desc_len(s.drop_first(), v);
        let r = spec_insert_desc(s, v);
        let rest = spec_insert_desc(s.drop_first(), v);
        assert forall|i: int| 0 <= i < s.len() implies r[i] >= s[i] by {
            if i > 0 {
                assert(r[i] == rest[i - 1]);
                assert(s.drop_first()[i - 1] == s[i]);
            }
        }
    }
}

/// Merges a finished round's score into the high-score list: the score is
/// insertion-sorted into the descending list, every later entry shifts down
/// one slot, and the smallest entry falls off, so the list keeps exactly 8
/// entries and no slot ever decreases.
pub fn merge_into_high_scores(hs: &mut HighScore, round_score: i32)
    requires
        old(hs).wf(),
    ensures
        final(hs).wf(),
        final(hs).0@ == spec_insert_desc(old(hs).0@, round_score),
        forall|i: int| 0 <= i < 8 ==> final(hs).0@[i] >= old(hs).0@[i],
{
    let ghost orig: Seq<i32> = hs.0@;
    let mut temp = round_score;
    let mut i: usize = 0;
    proof {
        lemma_insert_desc_len(orig, round_score);
        assert(orig.subrange(0, 8) =~= orig);
        assert(hs.0@.subrange(0, 0) + spec_insert_desc(orig.subrange(0, 8), temp)
            =~= spec_insert_desc(orig, round_score));
    }
    while i < HIGH_SCORE_LEN
        invariant
            0 <= i <= 8,
            hs.0@.len() == 8,
            sorted_desc(orig),
            orig.len() == 8,
            hs.0@.subrange(i as int, 8) =~= orig.subrange(i as int, 8),
            spec_insert_desc(orig, round_score) =~= hs.0@.subrange(0, i as int)
                + spec_insert_desc(orig.subrange(i as int, 8), temp),
        decreases 8 - i,
    {
        let ghost a = i as int;
        let ghost pre = hs.0@;
        let ghost tail = orig.subrange(a, 8);
        let ghost tail1 = orig.subrange(a + 1, 8);
        proof {
            lemma_sorted_subrange(orig, a, 8);
            lemma_sorted_subrange(orig, a + 1, 8);
            assert(tail[0] == orig[a]);
            assert(pre[a] == tail[0]);
            assert(tail.drop_first() =~= tail1);
            lemma_insert_desc_len(tail1, temp);
        }
        if temp > hs.0[i] {
            let t = temp;
            temp = hs.0[i];
            hs.0[i] = t;
            proof {
                // temp now holds orig[a]; the swapped-out value went into slot a
                assert(hs.0@ =~= pre.update(a, t));
                assert(hs.0@.subrange(a + 1, 8) =~= tail1);
                assert(hs.0@.subrange(0, a + 1) =~= pre.subrange(0, a) + seq![t]);
                // inserting t above the head of the suffix shifts it down
                assert(spec_insert_desc(tail, t) == seq![t] + tail.drop_last());
                if a < 7 {
                    assert(tail1[0] == orig[a + 1]);
                    assert(temp >= tail1[0]);
                    lemma_insert_desc_ge_head(tail1, temp);
                    assert(tail.drop_last() =~= seq![temp] + tail1.drop_last());
                    assert((pre.subrange(0, a) + seq![t]) + spec_insert_desc(tail1, temp)
                        =~= pre.subrange(0, a) + (seq![t] + tail.drop_last()));
                } else {
                    assert(tail.drop_last() =~= Seq::<i32>::empty());
                    assert(tail1 =~= Seq::<i32>::empty());
                    assert(spec_insert_desc(tail1, temp) =~= Seq::<i32>::empty());
                    assert((pre.subrange(0, a) + seq![t]) + spec_insert_desc(tail1, temp)
                        =~= pre.subrange(0, a) + (seq![t] + tail.drop_last()));
                }
                assert(spec_insert_desc(orig, round_score) =~= hs.0@.subrange(0, a + 1)
                    + spec_insert_desc(tail1, temp));
            }
        } else {
            proof {
                assert(spec_insert_desc(tail, temp) == seq![tail[0]] + spec_insert_desc(
                    tail1,
                    temp,
                ));
                assert(hs.0@.subrange(0, a + 1) =~= hs.0@.subrange(0, a) + seq![orig[a]]);
                assert((hs.0@.subrange(0, a) + seq![orig[a]]) + spec_insert_desc(tail1, temp)
                    =~= hs.0@.subrange(0, a) + (seq![tail[0]] + spec_insert_desc(tail1, temp)));
                assert(hs.0@.subrange(a + 1, 8) =~= tail1);
            }
        }
        i = i + 1;
    }
    proof {
        assert(spec_insert_desc(orig.subrange(8, 8), temp) =~= Seq::<i32>::empty());
        assert(hs.0@.subrange(0, 8) =~= hs.0@);
        assert(hs.0@ =~= spec_insert_desc(orig, round_score));
        lemma_insert_desc_sorted(orig, round_score);
        lemma_insert_desc_monotone(orig, round_score);
    }
}

/// Any contiguous slice of a sorted list is sorted.
proof fn lemma_sorted_subrange(s: Seq<i32>, a: int, b: int)
    requires
        sorted_desc(s),
        0 <= a <= b <= s.len(),
    ensures
        sorted_desc(s.subrange(a, b)),
{
    assert forall|i: int, j: int| 0 <= i <= j < s.subrange(a, b).len() implies s.subrange(a, b)[i]
        >= s.subrange(a, b)[j] by {
        assert(s.subrange(a, b)[i] == s[a + i]);
        assert(s.subrange(a, b)[j] == s[a + j]);
    }
}

} // verus!
