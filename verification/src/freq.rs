//! How often each remote branch was picked.
//!
//! The store is a map from branch names to counts. It is kept as a list in
//! which no name occurs twice; reading it from a file and writing it back is
//! left to the caller, who gets and gives the list.

use crate::text::same_text;
use vstd::prelude::*;
use vstd::string::*;

verus! {

/// One line of the store: a branch and the number of times it was picked.
#[derive(Debug, PartialEq, Eq)]
pub struct BranchCount {
    pub branch: String,
    pub count: u64,
}

/// The counts, by branch name.
#[derive(Debug, PartialEq, Eq)]
pub struct FrequencyStore {
    counts: Vec<BranchCount>,
}

/// The map that a list of lines stands for. Where a name occurs twice the
/// later line counts.
pub open spec fn spec_counts(lines: Seq<BranchCount>) -> Map<Seq<char>, u64>
    decreases lines.len(),
{
    if lines.len() == 0 {
        Map::empty()
    } else {
        spec_counts(lines.drop_last()).insert(lines.last().branch@, lines.last().count)
    }
}

/// No name occurs twice.
pub open spec fn distinct(lines: Seq<BranchCount>) -> bool {
    forall|i: int, j: int|
        0 <= i < j < lines.len() ==> (#[trigger] lines[i]).branch@ != (#[trigger] lines[j]).branch@
}

/// The count of `branch` in `counts`: zero for a branch that is not there.
pub open spec fn spec_count(counts: Map<Seq<char>, u64>, branch: Seq<char>) -> u64 {
    if counts.contains_key(branch) {
        counts[branch]
    } else {
        0
    }
}

/// A name that is in no line is not in the map.
pub proof fn lemma_absent(lines: Seq<BranchCount>, branch: Seq<char>)
    requires
        forall|i: int| 0 <= i < lines.len() ==> (#[trigger] lines[i]).branch@ != branch,
    ensures
        !spec_counts(lines).contains_key(branch),
    decreases lines.len(),
{
    if lines.len() > 0 {
        let earlier = lines.drop_last();
        assert forall|i: int| 0 <= i < earlier.len() implies (#[trigger] earlier[i]).branch@
            != branch by {
            assert(earlier[i] == lines[i]);
        }
        lemma_absent(earlier, branch);
        assert(lines.last() == lines[lines.len() - 1]);
    }
}

/// With no name twice, the map holds for each line its count.
pub proof fn lemma_present(lines: Seq<BranchCount>, at: int)
    requires
        distinct(lines),
        0 <= at < lines.len(),
    ensures
        spec_counts(lines).contains_key(lines[at].branch@),
        spec_counts(lines)[lines[at].branch@] == lines[at].count,
    decreases lines.len(),
{
    let earlier = lines.drop_last();
    if at < lines.len() - 1 {
        assert forall|i: int, j: int| 0 <= i < j < earlier.len() implies (
        #[trigger] earlier[i]).branch@ != (#[trigger] earlier[j]).branch@ by {
            assert(earlier[i] == lines[i]);
            assert(earlier[j] == lines[j]);
        }
        lemma_present(earlier, at);
        assert(earlier[at] == lines[at]);
        assert(lines.last() == lines[lines.len() - 1]);
        assert(lines[at].branch@ != lines[lines.len() - 1].branch@);
    }
}

/// With no name twice, a new count in one line is a new count in the map.
pub proof fn lemma_replaced(lines: Seq<BranchCount>, at: int, line: BranchCount)
    requires
        distinct(lines),
        0 <= at < lines.len(),
        line.branch@ == lines[at].branch@,
    ensures
        distinct(lines.update(at, line)),
        spec_counts(lines.update(at, line)) == spec_counts(lines).insert(line.branch@, line.count),
    decreases lines.len(),
{
    let changed = lines.update(at, line);
    let earlier = lines.drop_last();
    assert(distinct(changed)) by {
        assert forall|i: int, j: int| 0 <= i < j < changed.len() implies (
        #[trigger] changed[i]).branch@ != (#[trigger] changed[j]).branch@ by {
            assert(changed[i].branch@ == lines[i].branch@);
            assert(changed[j].branch@ == lines[j].branch@);
        }
    }
    if at == lines.len() - 1 {
        assert(changed.drop_last() =~= earlier);
        assert(changed.last() == line);
        assert(spec_counts(changed) =~= spec_counts(lines).insert(line.branch@, line.count));
    } else {
        assert forall|i: int, j: int| 0 <= i < j < earlier.len() implies (
        #[trigger] earlier[i]).branch@ != (#[trigger] earlier[j]).branch@ by {
            assert(earlier[i] == lines[i]);
            assert(earlier[j] == lines[j]);
        }
        lemma_replaced(earlier, at, line);
        assert(changed.drop_last() =~= earlier.update(at, line));
        assert(changed.last() == lines.last());
        assert(lines.last() == lines[lines.len() - 1]);
        assert(lines[at].branch@ != lines[lines.len() - 1].branch@);
        assert(spec_counts(changed) =~= spec_counts(lines).insert(line.branch@, line.count));
    }
}

impl View for FrequencyStore {
    type V = Map<Seq<char>, u64>;

    closed spec fn view(&self) -> Map<Seq<char>, u64> {
        spec_counts(self.counts@)
    }
}

impl FrequencyStore {
    #[verifier::type_invariant]
    spec fn no_name_twice(self) -> bool {
        distinct(self.counts@)
    }

    /// A store in which no branch was ever picked.
    pub fn new() -> (store: FrequencyStore)
        ensures
            store@ == Map::<Seq<char>, u64>::empty(),
    {
        FrequencyStore { counts: Vec::new() }
    }

    /// The line of `branch`, if it has one.
    fn find(&self, branch: &str) -> (at: Option<usize>)
        ensures
            at matches Some(i) ==> i < self.counts.len() && self.counts[i as int].branch@
                == branch@,
            at is None ==> forall|i: int|
                0 <= i < self.counts.len() ==> (#[trigger] self.counts[i]).branch@ != branch@,
    {
        let mut i: usize = 0;
        while i < self.counts.len()
            invariant
                i <= self.counts.len(),
                forall|k: int| 0 <= k < i ==> (#[trigger] self.counts[k]).branch@ != branch@,
            decreases self.counts.len() - i,
        {
            if same_text(self.counts[i].branch.as_str(), branch) {
                return Some(i);
            }
            i += 1;
        }
        None
    }

    /// How often `branch` was picked; zero for a branch that never was.
    pub fn count(&self, branch: &str) -> (n: u64)
        ensures
            n == spec_count(self@, branch@),
    {
        proof {
            use_type_invariant(self);
        }
        match self.find(branch) {
            Some(i) => {
                proof {
                    lemma_present(self.counts@, i as int);
                }
                self.counts[i].count
            },
            None => {
                proof {
                    lemma_absent(self.counts@, branch@);
                }
                0
            },
        }
    }

    /// Sets the count of `branch`.
    pub fn set(&mut self, branch: &str, count: u64)
        ensures
            final(self)@ == old(self)@.insert(branch@, count),
    {
        proof {
            use_type_invariant(&*self);
        }
        let line = BranchCount { branch: branch.to_string(), count };
        let found = self.find(branch);
        let mut counts: Vec<BranchCount> = Vec::new();
        std::mem::swap(&mut self.counts, &mut counts);
        let ghost before = counts@;
        match found {
            Some(i) => {
                proof {
                    lemma_replaced(before, i as int, line);
                }
                counts.set(i, line);
            },
            None => {
                counts.push(line);
                proof {
                    assert(counts@.drop_last() =~= before);
                    assert(counts@.last() == line);
                    assert forall|i: int, j: int| 0 <= i < j < counts@.len() implies (
                    #[trigger] counts@[i]).branch@ != (#[trigger] counts@[j]).branch@ by {
                        assert(counts@[i] == before[i]);
                        if j < before.len() {
                            assert(counts@[j] == before[j]);
                        }
                    }
                }
            },
        }
        std::mem::swap(&mut self.counts, &mut counts);
    }

    /// Counts one more pick of `branch`.
    pub fn increment(&mut self, branch: &str)
        requires
            spec_count(old(self)@, branch@) < u64::MAX,
        ensures
            final(self)@ == old(self)@.insert(
                branch@,
                (spec_count(old(self)@, branch@) + 1) as u64,
            ),
    {
        let before = self.count(branch);
        self.set(branch, before + 1);
    }

    /// The store that a list of lines stands for. Where a name occurs twice
    /// the later line counts.
    pub fn from_lines(lines: &Vec<BranchCount>) -> (store: FrequencyStore)
        ensures
            store@ == spec_counts(lines@),
    {
        let mut store = FrequencyStore::new();
        let mut i: usize = 0;
        assert(lines@.take(0) =~= Seq::<BranchCount>::empty());
        while i < lines.len()
            invariant
                i <= lines.len(),
                store@ == spec_counts(lines@.take(i as int)),
            decreases lines.len() - i,
        {
            let ghost seen = lines@.take(i as int + 1);
            assert(seen.drop_last() =~= lines@.take(i as int));
            assert(seen.last() == lines@[i as int]);
            store.set(lines[i].branch.as_str(), lines[i].count);
            i += 1;
        }
        assert(lines@.take(lines.len() as int) =~= lines@);
        store
    }

    /// The lines of the store: one for each branch that has a count, none
    /// twice.
    pub fn lines(&self) -> (lines: &Vec<BranchCount>)
        ensures
            spec_counts(lines@) == self@,
            distinct(lines@),
    {
        proof {
            use_type_invariant(self);
        }
        &self.counts
    }
}

impl Default for FrequencyStore {
    fn default() -> (store: FrequencyStore)
        ensures
            store@ == Map::<Seq<char>, u64>::empty(),
    {
        FrequencyStore::new()
    }
}

} // verus!
