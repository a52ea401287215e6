//! Facts about duplicate-free sequences of ids, shared by the room
//! registry's member lists and the event bus's listener sets.

use vstd::prelude::*;
use vstd::seq_lib::*;

verus! {

/// The member list with one session filtered out (the no-op when the
/// session is not present).
pub open spec fn drop_member(members: Seq<u64>, sid: u64) -> Seq<u64> {
    members.filter(|s: u64| s != sid)
}

/// Filtering away a value that does not occur changes nothing.
pub proof fn lemma_filter_keeps_all(s: Seq<u64>, sid: u64)
    requires
        !s.contains(sid),
    ensures
        drop_member(s, sid) == s,
    decreases s.len(),
{
    reveal(Seq::filter);
    if s.len() == 0 {
    } else {
        assert(!s.drop_last().contains(sid)) by {
            if s.drop_last().contains(sid) {
                let j = choose|j: int| 0 <= j < s.drop_last().len() && s.drop_last()[j] == sid;
                assert(s[j] == sid);
            }
        }
        lemma_filter_keeps_all(s.drop_last(), sid);
        assert(s[s.len() - 1] != sid) by {
            if s[s.len() - 1] == sid {
                assert(s.contains(sid));
            }
        }
        assert(drop_member(s, sid) == s.drop_last().push(s.last()));
        assert(s.drop_last().push(s.last()) =~= s);
    }
}

/// What filtering one session id out does: that id is gone, all other
/// ids keep their relative order, and no duplicate appears.
pub proof fn lemma_drop_member(s: Seq<u64>, sid: u64)
    ensures
        !drop_member(s, sid).contains(sid),
        forall|x: u64| x != sid ==> (drop_member(s, sid).contains(x) <==> s.contains(x)),
        s.no_duplicates() ==> drop_member(s, sid).no_duplicates(),
        !s.contains(sid) ==> drop_member(s, sid) == s,
    decreases s.len(),
{
    reveal(Seq::filter);
    let pred = |s: u64| s != sid;
    if s.len() == 0 {
        assert(s.filter(pred) =~= s);
        if !s.contains(sid) {
            lemma_filter_keeps_all(s, sid);
        }
    } else {
        lemma_drop_member(s.drop_last(), sid);
        assert(s.drop_last().push(s.last()) =~= s);
        let dp = drop_member(s.drop_last(), sid);
        assert(drop_member(s, sid) == (if pred(s.last()) {
            dp.push(s.last())
        } else {
            dp
        }));
        assert forall|x: u64| x != sid implies (drop_member(s, sid).contains(x) <==> s.contains(
            x,
        )) by {
            if drop_member(s, sid).contains(x) {
                if pred(s.last()) {
                    let j = choose|j: int|
                        0 <= j < dp.push(s.last()).len() && dp.push(s.last())[j] == x;
                    if j == dp.len() {
                        assert(s[s.len() - 1] == x);
                    } else {
                        assert(dp.contains(x));
                        assert(s.drop_last().contains(x));
                        let k = choose|k: int|
                            0 <= k < s.drop_last().len() && s.drop_last()[k] == x;
                        assert(s[k] == x);
                    }
                } else {
                    assert(dp.contains(x));
                    assert(s.drop_last().contains(x));
                    let k = choose|k: int| 0 <= k < s.drop_last().len() && s.drop_last()[k] == x;
                    assert(s[k] == x);
                }
            }
            if s.contains(x) {
                let j = choose|j: int| 0 <= j < s.len() && s[j] == x;
                if j == s.len() - 1 {
                    assert(pred(s.last()));
                    assert(drop_member(s, sid)[drop_member(s, sid).len() - 1] == x);
                } else {
                    assert(s.drop_last()[j] == x);
                    assert(s.drop_last().contains(x));
                    assert(dp.contains(x));
                    let k = choose|k: int| 0 <= k < dp.len() && dp[k] == x;
                    assert(drop_member(s, sid)[k] == x);
                }
            }
        }
        if s.no_duplicates() {
            assert(s.drop_last().no_duplicates()) by {
                assert forall|a: int, b: int|
                    0 <= a < s.drop_last().len() && 0 <= b < s.drop_last().len() && a
                        != b implies s.drop_last()[a] != s.drop_last()[b] by {
                    assert(s.drop_last()[a] == s[a]);
                    assert(s.drop_last()[b] == s[b]);
                }
            }
            if pred(s.last()) {
                assert(!dp.contains(s.last())) by {
                    if dp.contains(s.last()) {
                        assert(s.drop_last().contains(s.last()));
                        let k = choose|k: int|
                            0 <= k < s.drop_last().len() && s.drop_last()[k] == s.last();
                        assert(s[k] == s[s.len() - 1]);
                        assert(false);
                    }
                }
                assert forall|a: int, b: int|
                    0 <= a < drop_member(s, sid).len() && 0 <= b < drop_member(s, sid).len() && a
                        != b implies drop_member(s, sid)[a] != drop_member(s, sid)[b] by {
                    let d = drop_member(s, sid);
                    if a < d.len() - 1 && b < d.len() - 1 {
                        assert(d[a] == dp[a] && d[b] == dp[b]);
                    } else if b == d.len() - 1 {
                        assert(d[a] == dp[a]);
                        assert(dp.contains(dp[a]));
                    } else {
                        assert(d[b] == dp[b]);
                        assert(dp.contains(dp[b]));
                    }
                }
            }
        }
        if !s.contains(sid) {
            lemma_filter_keeps_all(s, sid);
        }
    }
}

/// Filtering one session id out distributes over concatenation.
pub proof fn lemma_drop_member_distributes(a: Seq<u64>, b: Seq<u64>, sid: u64)
    ensures
        drop_member(a + b, sid) == drop_member(a, sid) + drop_member(b, sid),
    decreases b.len(),
{
    reveal(Seq::filter);
    if b.len() == 0 {
        assert(a + b =~= a);
        assert(b =~= Seq::<u64>::empty());
        assert(drop_member(b, sid) =~= Seq::<u64>::empty());
        assert(drop_member(a, sid) + Seq::<u64>::empty() =~= drop_member(a, sid));
    } else {
        lemma_drop_member_distributes(a, b.drop_last(), sid);
        assert((a + b).drop_last() =~= a + b.drop_last());
        assert((a + b).last() == b.last());
        if b.last() != sid {
            assert(drop_member(a + b, sid) == drop_member(a + b.drop_last(), sid).push(b.last()));
            assert(drop_member(b, sid) == drop_member(b.drop_last(), sid).push(b.last()));
            assert(drop_member(a, sid) + drop_member(b.drop_last(), sid).push(b.last()) =~= (
            drop_member(a, sid) + drop_member(b.drop_last(), sid)).push(b.last()));
        } else {
            assert(drop_member(a + b, sid) == drop_member(a + b.drop_last(), sid));
            assert(drop_member(b, sid) == drop_member(b.drop_last(), sid));
        }
    }
}

/// Appending a fresh element keeps a sequence duplicate-free.
pub proof fn lemma_nodup_push(s: Seq<u64>, x: u64)
    requires
        s.no_duplicates(),
        !s.contains(x),
    ensures
        s.push(x).no_duplicates(),
{
    assert forall|a: int, b: int|
        0 <= a < s.push(x).len() && 0 <= b < s.push(x).len() && a != b implies s.push(x)[a]
        != s.push(x)[b] by {
        if a < s.len() && b < s.len() {
        } else if b == s.len() {
            assert(s.push(x)[a] == s[a]);
            assert(s.contains(s[a]));
        } else {
            assert(s.push(x)[b] == s[b]);
            assert(s.contains(s[b]));
        }
    }
}

/// Removing an element keeps a sequence duplicate-free.
pub proof fn lemma_nodup_remove(s: Seq<u64>, i: int)
    requires
        0 <= i < s.len(),
        s.no_duplicates(),
    ensures
        s.remove(i).no_duplicates(),
{
    assert forall|a: int, b: int|
        0 <= a < s.remove(i).len() && 0 <= b < s.remove(i).len() && a != b implies s.remove(i)[a]
        != s.remove(i)[b] by {
        let a2: int = if a < i {
            a
        } else {
            a + 1
        };
        let b2: int = if b < i {
            b
        } else {
            b + 1
        };
        assert(s.remove(i)[a] == s[a2]);
        assert(s.remove(i)[b] == s[b2]);
    }
}

/// After removing the only occurrence of `sid`, membership is the old
/// membership minus `sid`.
pub proof fn lemma_contains_after_remove(s: Seq<u64>, i: int, sid: u64)
    requires
        0 <= i < s.len(),
        s[i] == sid,
        s.no_duplicates(),
    ensures
        forall|x: u64| s.remove(i).contains(x) <==> (s.contains(x) && x != sid),
{
    assert forall|x: u64| s.remove(i).contains(x) implies (s.contains(x) && x != sid) by {
        let j = choose|j: int| 0 <= j < s.remove(i).len() && s.remove(i)[j] == x;
        if j < i {
            assert(s[j] == x);
        } else {
            assert(s[j + 1] == x);
        }
    }
    assert forall|x: u64| s.contains(x) && x != sid implies s.remove(i).contains(x) by {
        let j = choose|j: int| 0 <= j < s.len() && s[j] == x;
        if j < i {
            assert(s.remove(i)[j] == x);
        } else {
            assert(s.remove(i)[j - 1] == x);
        }
    }
}

/// Removing the entry at `k` from a duplicate-free sequence is the
/// same as filtering its value out.
pub proof fn lemma_remove_is_drop(s: Seq<u64>, k: int)
    requires
        0 <= k < s.len(),
        s.no_duplicates(),
    ensures
        s.remove(k) == drop_member(s, s[k]),
{
    let sid = s[k];
    let front = s.subrange(0, k);
    let single = Seq::<u64>::empty().push(sid);
    let back = s.subrange(k + 1, s.len() as int);
    assert(s =~= (front + single) + back);
    assert(s.remove(k) =~= front + back);
    lemma_drop_member_distributes(front + single, back, sid);
    lemma_drop_member_distributes(front, single, sid);
    assert(!front.contains(sid)) by {
        if front.contains(sid) {
            let j = choose|j: int| 0 <= j < front.len() && front[j] == sid;
            assert(s[j] == sid);
            assert(false);
        }
    }
    assert(!back.contains(sid)) by {
        if back.contains(sid) {
            let j = choose|j: int| 0 <= j < back.len() && back[j] == sid;
            assert(s[j + k + 1] == sid);
            assert(false);
        }
    }
    lemma_filter_keeps_all(front, sid);
    lemma_filter_keeps_all(back, sid);
    assert(drop_member(single, sid) =~= Seq::<u64>::empty()) by {
        reveal(Seq::filter);
        assert(drop_member(Seq::<u64>::empty(), sid) =~= Seq::<u64>::empty());
        assert(single.drop_last() =~= Seq::<u64>::empty());
        assert(single.len() == 1);
        assert(single.last() == sid);
    }
    assert(drop_member(s, sid) == (drop_member(front, sid) + drop_member(single, sid))
        + drop_member(back, sid));
    assert((front + Seq::<u64>::empty()) + back =~= front + back);
}

} // verus!
