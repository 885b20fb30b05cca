use vstd::prelude::*;

verus! {

/// The mapping that a sequence of (id, answer) pairs stands for: each pair is
/// stored under its id, a later pair replacing an earlier one with that id.
pub open spec fn as_map(pairs: Seq<(Seq<char>, Seq<char>)>) -> Map<Seq<char>, Seq<char>>
    decreases pairs.len(),
{
    if pairs.len() == 0 {
        Map::empty()
    } else {
        as_map(pairs.drop_last()).insert(pairs.last().0, pairs.last().1)
    }
}

/// Whether no id occurs twice among the pairs.
pub open spec fn distinct_ids(pairs: Seq<(Seq<char>, Seq<char>)>) -> bool {
    forall|i: int, j: int|
        0 <= i < j < pairs.len() ==> (#[trigger] pairs[i]).0 != (#[trigger] pairs[j]).0
}

/// An id is in the mapping exactly when some pair carries it.
pub proof fn lemma_as_map_dom(pairs: Seq<(Seq<char>, Seq<char>)>, id: Seq<char>)
    ensures
        as_map(pairs).dom().contains(id) <==> exists|i: int|
            0 <= i < pairs.len() && (#[trigger] pairs[i]).0 == id,
    decreases pairs.len(),
{
    if pairs.len() > 0 {
        let front = pairs.drop_last();
        lemma_as_map_dom(front, id);
        if as_map(pairs).dom().contains(id) {
            if pairs.last().0 == id {
                assert(pairs[pairs.len() - 1].0 == id);
            } else {
                let i = choose|i: int| 0 <= i < front.len() && (#[trigger] front[i]).0 == id;
                assert(pairs[i].0 == id);
            }
        }
        if exists|i: int| 0 <= i < pairs.len() && (#[trigger] pairs[i]).0 == id {
            let i = choose|i: int| 0 <= i < pairs.len() && (#[trigger] pairs[i]).0 == id;
            if i < pairs.len() - 1 {
                assert(front[i].0 == id);
            }
        }
    }
}

/// Pairs with distinct ids stand for a finite mapping with one entry per
/// pair.
pub proof fn lemma_as_map_len(pairs: Seq<(Seq<char>, Seq<char>)>)
    requires
        distinct_ids(pairs),
    ensures
        as_map(pairs).dom().finite(),
        as_map(pairs).dom().len() == pairs.len(),
    decreases pairs.len(),
{
    if pairs.len() > 0 {
        let front = pairs.drop_last();
        assert forall|i: int, j: int| 0 <= i < j < front.len() implies (#[trigger] front[i]).0 != (
        #[trigger] front[j]).0 by {
            assert(pairs[i].0 != pairs[j].0);
        }
        lemma_as_map_len(front);
        lemma_as_map_dom(front, pairs.last().0);
        if as_map(front).dom().contains(pairs.last().0) {
            let i = choose|i: int| 0 <= i < front.len() && (#[trigger] front[i]).0 == pairs.last().0;
            assert(pairs[i].0 != pairs[pairs.len() - 1].0);
        }
        assert(as_map(pairs).dom() =~= as_map(front).dom().insert(pairs.last().0));
    }
}

/// Replacing the answer of the pair at `k` is an insertion under that pair's
/// id, provided the id does not occur again after `k`.
proof fn lemma_as_map_update(pairs: Seq<(Seq<char>, Seq<char>)>, k: int, answer: Seq<char>)
    requires
        0 <= k < pairs.len(),
        forall|j: int| k < j < pairs.len() ==> (#[trigger] pairs[j]).0 != pairs[k].0,
    ensures
        as_map(pairs.update(k, (pairs[k].0, answer))) == as_map(pairs).insert(pairs[k].0, answer),
    decreases pairs.len(),
{
    let id = pairs[k].0;
    let changed = pairs.update(k, (id, answer));
    let front = pairs.drop_last();
    if k == pairs.len() - 1 {
        assert(changed.drop_last() =~= front);
        assert(as_map(changed) =~= as_map(pairs).insert(id, answer));
    } else {
        assert(changed.drop_last() =~= front.update(k, (front[k].0, answer)));
        assert forall|j: int| k < j < front.len() implies (#[trigger] front[j]).0 != front[k].0 by {
            assert(pairs[j].0 != pairs[k].0);
        }
        lemma_as_map_update(front, k, answer);
        assert(pairs[pairs.len() - 1].0 != id);
        assert(changed.last() == pairs.last());
        assert(as_map(changed) =~= as_map(pairs).insert(id, answer));
    }
}

/// The answers to a form: one answer per input id.
#[derive(Debug, PartialEq, Eq)]
pub struct Submission {
    entries: Vec<(String, String)>,
}

impl Clone for Submission {
    fn clone(&self) -> (res: Submission)
        ensures
            res@ == self@,
    {
        proof {
            use_type_invariant(self);
        }
        let mut entries: Vec<(String, String)> = Vec::new();
        let mut i: usize = 0;
        while i < self.entries.len()
            invariant
                0 <= i <= self.entries.len(),
                entries.len() == i,
                forall|j: int| 0 <= j < i ==> (#[trigger] entries[j]).deep_view() == self.entries[j].deep_view(),
            decreases self.entries.len() - i,
        {
            let pair = &self.entries[i];
            entries.push((pair.0.clone(), pair.1.clone()));
            i = i + 1;
        }
        assert(entries.deep_view() =~= self.entries.deep_view());
        Submission { entries }
    }
}

impl View for Submission {
    type V = Map<Seq<char>, Seq<char>>;

    /// The mapping from input id to answer.
    closed spec fn view(&self) -> Map<Seq<char>, Seq<char>> {
        as_map(self.entries.deep_view())
    }
}

impl Submission {
    /// The invariant of the type: no id is held twice.
    #[verifier::type_invariant]
    closed spec fn wf(&self) -> bool {
        distinct_ids(self.entries.deep_view())
    }

    /// A submission without answers.
    pub fn new() -> (res: Submission)
        ensures
            res@ == Map::<Seq<char>, Seq<char>>::empty(),
    {
        let entries: Vec<(String, String)> = Vec::new();
        assert(entries.deep_view() =~= Seq::empty());
        Submission { entries }
    }

    /// Stores `answer` under `id`, in place of any answer stored there before.
    pub fn insert(self, id: String, answer: String) -> (res: Submission)
        ensures
            res@ == self@.insert(id@, answer@),
    {
        let ghost before = self.entries.deep_view();
        proof {
            use_type_invariant(&self);
            lemma_as_map_dom(before, id@);
        }
        let mut entries = self.entries;
        let mut i: usize = 0;
        while i < entries.len()
            invariant
                0 <= i <= entries.len(),
                entries.deep_view() == before,
                before == self.entries.deep_view(),
                before.len() == entries.len(),
                distinct_ids(before),
                as_map(before).dom().contains(id@) <==> exists|k: int|
                    0 <= k < before.len() && (#[trigger] before[k]).0 == id@,
                forall|j: int| 0 <= j < i ==> (#[trigger] before[j]).0 != id@,
            decreases entries.len() - i,
        {
            assert(before[i as int] == entries[i as int].deep_view());
            if entries[i].0 == id {
                entries.set(i, (id, answer));
                proof {
                    let after = entries.deep_view();
                    assert(after =~= before.update(i as int, (id@, answer@)));
                    lemma_as_map_update(before, i as int, answer@);
                    assert forall|a: int, b: int| 0 <= a < b < after.len() implies (
                    #[trigger] after[a]).0 != (#[trigger] after[b]).0 by {
                        assert(before[a].0 != before[b].0);
                    }
                }
                return Submission { entries };
            }
            i = i + 1;
        }
        entries.push((id, answer));
        proof {
            let after = entries.deep_view();
            assert(after =~= before.push((id@, answer@)));
            assert(after.drop_last() =~= before);
            assert forall|a: int, b: int| 0 <= a < b < after.len() implies (#[trigger] after[a]).0
                != (#[trigger] after[b]).0 by {
                if b < before.len() {
                    assert(before[a].0 != before[b].0);
                } else {
                    assert(before[a].0 != id@);
                }
            }
        }
        Submission { entries }
    }

    /// The number of ids answered.
    pub fn len(&self) -> (res: usize)
        ensures
            self@.dom().finite(),
            res == self@.dom().len(),
    {
        proof {
            use_type_invariant(self);
            lemma_as_map_len(self.entries.deep_view());
        }
        self.entries.len()
    }

    /// The answer stored under `id`, if there is one.
    pub fn get(&self, id: &String) -> (res: Option<&String>)
        ensures
            match res {
                Some(answer) => self@.dom().contains(id@) && self@[id@] == answer@,
                None => !self@.dom().contains(id@),
            },
    {
        let ghost pairs = self.entries.deep_view();
        let mut i: usize = self.entries.len();
        proof {
            lemma_as_map_dom(pairs, id@);
            assert(pairs.take(pairs.len() as int) =~= pairs);
        }
        while i > 0
            invariant
                0 <= i <= self.entries.len(),
                pairs == self.entries.deep_view(),
                pairs.len() == self.entries.len(),
                as_map(pairs).dom().contains(id@) == as_map(pairs.take(i as int)).dom().contains(
                    id@,
                ),
                as_map(pairs).dom().contains(id@) ==> as_map(pairs)[id@] == as_map(
                    pairs.take(i as int),
                )[id@],
            decreases i,
        {
            i = i - 1;
            assert(pairs[i as int] == self.entries[i as int].deep_view());
            assert(pairs.take(i + 1).drop_last() =~= pairs.take(i as int));
            assert(pairs.take(i + 1).last() == pairs[i as int]);
            if self.entries[i].0 == *id {
                return Some(&self.entries[i].1);
            }
        }
        assert(pairs.take(0) =~= Seq::<(Seq<char>, Seq<char>)>::empty());
        None
    }

    /// Hands the answers out as pairs of id and answer. No id occurs twice,
    /// and the pairs stand for the same mapping.
    pub fn into_entries(self) -> (res: Vec<(String, String)>)
        ensures
            distinct_ids(res.deep_view()),
            as_map(res.deep_view()) == self@,
    {
        proof {
            use_type_invariant(&self);
        }
        self.entries
    }
}

} // verus!
