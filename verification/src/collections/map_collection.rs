use crate::collections::configuration::Configuration;
use crate::types::{LogIndex, NodeId};
use std::collections::HashMap;
use vstd::prelude::*;

verus! {

broadcast use vstd::std_specs::hash::group_hash_axioms;

/// How many values of `s` are at least `v`.
pub open spec fn count_at_least(s: Seq<u64>, v: u64) -> nat
    decreases s.len(),
{
    if s.len() == 0 {
        0
    } else {
        count_at_least(s.drop_last(), v) + if s.last() >= v {
            1nat
        } else {
            0nat
        }
    }
}

/// More than half of `n`.
pub open spec fn majority(n: nat) -> nat {
    n / 2 + 1
}

/// `count_at_least(s, v)` is the number of values of `s` that are at least `v`: the
/// length of what keeping those values leaves.
pub proof fn lemma_count_at_least_counts(s: Seq<u64>, v: u64)
    ensures
        count_at_least(s, v) == s.filter(|x: u64| x >= v).len(),
        count_at_least(s, v) <= s.len(),
    decreases s.len(),
{
    reveal(Seq::filter);
    if s.len() > 0 {
        lemma_count_at_least_counts(s.drop_last(), v);
    }
}

/// A majority of `n` is the smallest count that is more than half of `n`.
pub proof fn lemma_majority_is_more_than_half(n: nat)
    ensures
        2 * majority(n) > n,
        2 * (majority(n) - 1) <= n,
        forall|count: nat| #[trigger] (2 * count) > n <==> count >= majority(n),
{
}

/// `r` is the largest value of `s` that a majority of `s` has reached.
pub open spec fn is_quorum_index(s: Seq<u64>, r: u64) -> bool {
    &&& s.contains(r)
    &&& count_at_least(s, r) >= majority(s.len())
    &&& forall|v: u64| s.contains(v) && count_at_least(s, v) >= majority(s.len()) ==> v <= r
}

/// The quorum index of a list is exactly its largest value that more than half of the
/// list has reached, whatever the length of the list.
pub proof fn lemma_quorum_index_is_largest_half_reached(s: Seq<u64>, r: u64)
    ensures
        is_quorum_index(s, r) <==> {
            &&& s.contains(r)
            &&& 2 * count_at_least(s, r) > s.len()
            &&& forall|v: u64| s.contains(v) && 2 * count_at_least(s, v) > s.len() ==> v <= r
        },
{
}

/// The index recorded for `id`, or 0 when there is none.
pub open spec fn match_value(m: Map<NodeId, LogIndex>, id: NodeId) -> u64 {
    if m.contains_key(id) {
        m[id]
    } else {
        0
    }
}

/// The recorded indices of the members other than `leader`, in member order.
pub open spec fn follower_values(m: Map<NodeId, LogIndex>, members: Seq<NodeId>, leader: NodeId) -> Seq<u64>
    decreases members.len(),
{
    if members.len() == 0 {
        Seq::empty()
    } else {
        let rest = follower_values(m, members.drop_last(), leader);
        if members.last() != leader {
            rest.push(match_value(m, members.last()))
        } else {
            rest
        }
    }
}

/// The leader's last index followed by the recorded indices of the other members.
pub open spec fn quorum_values(
    m: Map<NodeId, LogIndex>,
    leader: NodeId,
    leader_last_index: LogIndex,
    members: Seq<NodeId>,
) -> Seq<u64> {
    seq![leader_last_index].add(follower_values(m, members, leader))
}

proof fn lemma_count_all(s: Seq<u64>, v: u64)
    requires
        forall|i: int| 0 <= i < s.len() ==> s[i] >= v,
    ensures
        count_at_least(s, v) == s.len(),
    decreases s.len(),
{
    if s.len() > 0 {
        lemma_count_all(s.drop_last(), v);
    }
}

proof fn lemma_min_index(s: Seq<u64>) -> (i: int)
    requires
        s.len() > 0,
    ensures
        0 <= i < s.len(),
        forall|j: int| 0 <= j < s.len() ==> s[j] >= s[i],
    decreases s.len(),
{
    if s.len() == 1 {
        0
    } else {
        let i0 = lemma_min_index(s.drop_last());
        assert(forall|j: int| 0 <= j < s.len() - 1 ==> s.drop_last()[j] == s[j]);
        if s.last() < s[i0] {
            (s.len() - 1) as int
        } else {
            i0
        }
    }
}

/// Some value of a non-empty list is reached by a majority of it: its smallest.
proof fn lemma_some_value_has_majority(s: Seq<u64>) -> (i: int)
    requires
        s.len() > 0,
    ensures
        0 <= i < s.len(),
        count_at_least(s, s[i]) >= majority(s.len()),
{
    let i = lemma_min_index(s);
    lemma_count_all(s, s[i]);
    i
}

/// The largest value of `s` that a majority of `full` has reached, if any.
spec fn best_qualifying(s: Seq<u64>, full: Seq<u64>) -> Option<u64>
    decreases s.len(),
{
    if s.len() == 0 {
        None
    } else {
        let rest = best_qualifying(s.drop_last(), full);
        let x = s.last();
        if count_at_least(full, x) >= majority(full.len()) {
            match rest {
                None => Some(x),
                Some(b) => Some(if x > b { x } else { b }),
            }
        } else {
            rest
        }
    }
}

proof fn lemma_best_qualifying(s: Seq<u64>, full: Seq<u64>)
    ensures
        best_qualifying(s, full) is Some ==> {
            let b = best_qualifying(s, full)->0;
            &&& s.contains(b)
            &&& count_at_least(full, b) >= majority(full.len())
            &&& forall|v: u64| s.contains(v) && count_at_least(full, v) >= majority(full.len()) ==> v <= b
        },
        best_qualifying(s, full) is None ==> forall|v: u64| s.contains(v) ==> count_at_least(full, v) < majority(full.len()),
    decreases s.len(),
{
    if s.len() > 0 {
        lemma_best_qualifying(s.drop_last(), full);
        assert forall|v: u64| s.contains(v) implies v == s.last() || s.drop_last().contains(v) by {
            let j = choose|j: int| 0 <= j < s.len() && s[j] == v;
            if j < s.len() - 1 {
                assert(s.drop_last()[j] == v);
            }
        }
        if best_qualifying(s.drop_last(), full) is Some {
            let b = best_qualifying(s.drop_last(), full)->0;
            let j = choose|j: int| 0 <= j < s.drop_last().len() && s.drop_last()[j] == b;
            assert(s[j] == b);
        }
        assert(s[s.len() - 1] == s.last());
    }
}

/// Every non-empty list of indices has a largest value that a majority of it has reached.
pub proof fn lemma_quorum_index_exists(s: Seq<u64>)
    requires
        s.len() > 0,
    ensures
        exists|r: u64| #[trigger] is_quorum_index(s, r),
{
    lemma_best_qualifying(s, s);
    let i = lemma_some_value_has_majority(s);
    assert(s.contains(s[i]));
    let b = best_qualifying(s, s)->0;
    assert(is_quorum_index(s, b));
}

fn count_values_at_least(values: &Vec<u64>, v: u64) -> (r: usize)
    ensures
        r == count_at_least(values@, v),
{
    let mut count: usize = 0;
    let mut j: usize = 0;
    while j < values.len()
        invariant
            j <= values@.len(),
            count == count_at_least(values@.take(j as int), v),
            count <= j,
        decreases values@.len() - j,
    {
        assert(values@.take(j as int + 1).drop_last() =~= values@.take(j as int));
        if values[j] >= v {
            count = count + 1;
        }
        j = j + 1;
    }
    assert(values@.take(values@.len() as int) =~= values@);
    count
}

/// The largest value of a non-empty list that a majority of the list has reached.
pub fn quorum_index(values: &Vec<u64>) -> (r: u64)
    requires
        values@.len() > 0,
    ensures
        is_quorum_index(values@, r),
        values@.contains(r),
        2 * count_at_least(values@, r) > values@.len(),
        forall|v: u64| values@.contains(v) && 2 * count_at_least(values@, v) > values@.len() ==> v <= r,
{
    let n = values.len();
    let k = n / 2 + 1;
    let mut best: u64 = 0;
    let mut found = false;
    let mut i: usize = 0;
    while i < n
        invariant
            n == values@.len(),
            k == majority(n as nat),
            i <= n,
            found ==> values@.contains(best) && count_at_least(values@, best) >= k,
            forall|j: int| 0 <= j < i && count_at_least(values@, #[trigger] values@[j]) >= k ==> found && values@[j] <= best,
        decreases n - i,
    {
        let v = values[i];
        let c = count_values_at_least(values, v);
        if c >= k && (!found || v > best) {
            best = v;
            found = true;
        }
        i = i + 1;
    }
    proof {
        let w = lemma_some_value_has_majority(values@);
        assert(found);
        assert forall|v: u64| values@.contains(v) && count_at_least(values@, v) >= majority(values@.len()) implies v <= best by {
            let j = choose|j: int| 0 <= j < values@.len() && values@[j] == v;
        }
    }
    best
}

/// For each server, a log index (the next index to send, or the highest index known replicated).
#[derive(Debug)]
pub struct MapCollection {
    map: HashMap<NodeId, LogIndex>,
}

impl View for MapCollection {
    type V = Map<NodeId, LogIndex>;

    closed spec fn view(&self) -> Map<NodeId, LogIndex> {
        self.map@
    }
}

impl MapCollection {
    pub fn new() -> (r: Self)
        ensures
            r@ == Map::<NodeId, LogIndex>::empty(),
    {
        MapCollection { map: HashMap::new() }
    }

    pub fn insert(&mut self, key: NodeId, value: LogIndex)
        ensures
            final(self)@ == old(self)@.insert(key, value),
    {
        self.map.insert(key, value);
    }

    pub fn get(&self, key: NodeId) -> (r: Option<LogIndex>)
        ensures
            r == (if self@.contains_key(key) {
                Some(self@[key])
            } else {
                None::<LogIndex>
            }),
    {
        match self.map.get(&key) {
            Some(v) => Some(*v),
            None => None,
        }
    }

    pub fn remove(&mut self, key: NodeId)
        ensures
            final(self)@ == old(self)@.remove(key),
    {
        self.map.remove(&key);
    }

    pub fn len(&self) -> (r: usize)
        ensures
            r == self@.len(),
    {
        self.map.len()
    }

    pub fn is_empty(&self) -> (r: bool)
        ensures
            r == (self@.len() == 0),
    {
        self.map.len() == 0
    }

    pub fn clear(&mut self)
        ensures
            final(self)@ == Map::<NodeId, LogIndex>::empty(),
    {
        self.map.clear();
    }

    /// The highest log index that a majority of the cluster holds: the leader counts
    /// with `leader_last_index`, every other member of `config` with its recorded index
    /// (0 when there is none).
    pub fn compute_median(&self, leader_id: NodeId, leader_last_index: LogIndex, config: &Configuration) -> (r: Option<LogIndex>)
        ensures
            r is Some,
            is_quorum_index(quorum_values(self@, leader_id, leader_last_index, config.members@), r->0),
    {
        let members = config.iter();
        let mut values: Vec<u64> = Vec::new();
        values.push(leader_last_index);
        let mut i: usize = 0;
        while i < members.len()
            invariant
                i <= members@.len(),
                members@ == config.members@,
                values@ == quorum_values(self@, leader_id, leader_last_index, members@.take(i as int)),
            decreases members@.len() - i,
        {
            let id = members[i];
            assert(members@.take(i as int + 1).drop_last() =~= members@.take(i as int));
            if id != leader_id {
                let v = match self.get(id) {
                    Some(v) => v,
                    None => 0,
                };
                values.push(v);
            }
            i = i + 1;
            assert(values@ =~= quorum_values(self@, leader_id, leader_last_index, members@.take(i as int)));
        }
        assert(members@.take(members@.len() as int) =~= members@);
        Some(quorum_index(&values))
    }
}

} // verus!
