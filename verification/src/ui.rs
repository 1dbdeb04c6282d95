//! What the operator can ask for, and which key asks for it.
//!
//! Reading a key is left to the caller; which action a key stands for is
//! decided here.

use crate::freq::{spec_count, FrequencyStore};
use crate::text::{
    before, lemma_before_irreflexive, lemma_before_transitive, spec_before, spec_bytes_before,
};
use vstd::prelude::*;
use vstd::seq_lib::{to_multiset_build, to_multiset_insert};
use vstd::string::*;

verus! {

/// A remote branch on offer, with the number of times it was picked before.
#[derive(Debug, PartialEq, Eq)]
pub struct BranchItem {
    pub name: String,
    pub count: u64,
}

/// What to do with the remote branch that was picked.
#[derive(Clone, Copy, Debug, PartialEq, Eq, Structural)]
pub enum Action {
    CreateBranch,
    CreateWorktree,
    Cancel,
}

/// What to do with the worktree that was picked.
#[derive(Clone, Copy, Debug, PartialEq, Eq, Structural)]
pub enum WtAction {
    /// Enter the worktree.
    Cd,
    /// Delete the worktree.
    Delete,
    /// Go back to the list.
    Back,
    /// Leave.
    Cancel,
}

/// The key of a key press, as far as it matters here.
#[derive(Clone, Copy, Debug, PartialEq, Eq, Structural)]
pub enum KeyCode {
    Enter,
    Esc,
    Char(char),
    Other,
}

/// A key press: the key and the modifiers held with it.
#[derive(Clone, Copy, Debug, PartialEq, Eq, Structural)]
pub struct KeyPress {
    pub code: KeyCode,
    pub control: bool,
    pub alt: bool,
}

/// The action that a key asks for on a remote branch, if any.
///
/// Enter alone creates a branch; Enter with Control, or `w` in either case,
/// creates a worktree; Escape, `q`, or `c` with Control cancels. Enter with
/// Alt and without Control asks for nothing, and so does any other key.
pub open spec fn spec_action_for_key(key: KeyPress) -> Option<Action> {
    match key.code {
        KeyCode::Enter => if key.control {
            Some(Action::CreateWorktree)
        } else if key.alt {
            None
        } else {
            Some(Action::CreateBranch)
        },
        KeyCode::Esc => Some(Action::Cancel),
        KeyCode::Char(c) => if c == 'w' || c == 'W' {
            Some(Action::CreateWorktree)
        } else if c == 'q' {
            Some(Action::Cancel)
        } else if c == 'c' && key.control {
            Some(Action::Cancel)
        } else {
            None
        },
        KeyCode::Other => None,
    }
}

/// The action that a key asks for on a worktree, if any.
///
/// Enter enters; `d` deletes, on a worktree that is not the primary one;
/// Escape or `q` goes back; `c` with Control leaves. Any other key, and `d` on
/// the primary worktree, asks for nothing.
pub open spec fn spec_worktree_action_for_key(key: KeyPress, is_main: bool) -> Option<WtAction> {
    match key.code {
        KeyCode::Enter => Some(WtAction::Cd),
        KeyCode::Esc => Some(WtAction::Back),
        KeyCode::Char(c) => if c == 'd' && !is_main {
            Some(WtAction::Delete)
        } else if c == 'q' {
            Some(WtAction::Back)
        } else if c == 'c' && key.control {
            Some(WtAction::Cancel)
        } else {
            None
        },
        KeyCode::Other => None,
    }
}

/// The action that a key asks for on a remote branch, if any.
pub fn action_for_key(key: &KeyPress) -> (action: Option<Action>)
    ensures
        action == spec_action_for_key(*key),
{
    match key.code {
        KeyCode::Enter => {
            if key.control {
                Some(Action::CreateWorktree)
            } else if key.alt {
                None
            } else {
                Some(Action::CreateBranch)
            }
        },
        KeyCode::Esc => Some(Action::Cancel),
        KeyCode::Char(c) => {
            if c == 'w' || c == 'W' {
                Some(Action::CreateWorktree)
            } else if c == 'q' {
                Some(Action::Cancel)
            } else if c == 'c' && key.control {
                Some(Action::Cancel)
            } else {
                None
            }
        },
        KeyCode::Other => None,
    }
}

/// The action that a key asks for on a worktree, if any.
pub fn worktree_action_for_key(key: &KeyPress, is_main: bool) -> (action: Option<WtAction>)
    ensures
        action == spec_worktree_action_for_key(*key, is_main),
        is_main ==> action != Some(WtAction::Delete),
{
    match key.code {
        KeyCode::Enter => Some(WtAction::Cd),
        KeyCode::Esc => Some(WtAction::Back),
        KeyCode::Char(c) => {
            if c == 'd' && !is_main {
                Some(WtAction::Delete)
            } else if c == 'q' {
                Some(WtAction::Back)
            } else if c == 'c' && key.control {
                Some(WtAction::Cancel)
            } else {
                None
            }
        },
        KeyCode::Other => None,
    }
}

/// A branch on offer as its name and its count.
pub open spec fn item_view(item: BranchItem) -> (Seq<char>, u64) {
    (item.name@, item.count)
}

/// A list of branches on offer as names and counts.
pub open spec fn item_views(items: Seq<BranchItem>) -> Seq<(Seq<char>, u64)> {
    items.map_values(|item: BranchItem| item_view(item))
}

/// `a` is offered before `b`: the branch that was picked more often comes
/// first, and of two that were picked equally often the one whose name comes
/// first.
pub open spec fn spec_ranks_before(a: (Seq<char>, u64), b: (Seq<char>, u64)) -> bool {
    a.1 > b.1 || (a.1 == b.1 && spec_before(a.0, b.0))
}

/// No branch is offered after one that it ranks before.
pub open spec fn ranked(items: Seq<(Seq<char>, u64)>) -> bool {
    forall|i: int, j: int|
        0 <= i < j < items.len() ==> !spec_ranks_before(#[trigger] items[j], #[trigger] items[i])
}

/// The branches `names` with the counts that `counts` has for them, in the
/// order given.
pub open spec fn spec_offers(names: Seq<String>, counts: Map<Seq<char>, u64>) -> Seq<
    (Seq<char>, u64),
> {
    names.map_values(|name: String| (name@, spec_count(counts, name@)))
}

/// The ranking is transitive, and no branch ranks before itself.
pub proof fn lemma_ranking_is_strict(a: (Seq<char>, u64), b: (Seq<char>, u64), c: (Seq<char>, u64))
    ensures
        !spec_ranks_before(a, a),
        spec_ranks_before(a, b) && spec_ranks_before(b, c) ==> spec_ranks_before(a, c),
        spec_ranks_before(a, b) ==> !spec_ranks_before(b, a),
{
    let x = vstd::utf8::encode_utf8(a.0);
    let y = vstd::utf8::encode_utf8(b.0);
    let z = vstd::utf8::encode_utf8(c.0);
    lemma_before_irreflexive(x);
    if spec_bytes_before(x, y) && spec_bytes_before(y, z) {
        lemma_before_transitive(x, y, z);
    }
    if spec_bytes_before(x, y) && spec_bytes_before(y, x) {
        lemma_before_transitive(x, y, x);
    }
}

/// A ranked list stays ranked when a branch is put in before the first that it
/// ranks before.
pub proof fn lemma_insert_keeps_ranking(
    items: Seq<(Seq<char>, u64)>,
    at: int,
    item: (Seq<char>, u64),
)
    requires
        ranked(items),
        0 <= at <= items.len(),
        forall|k: int| 0 <= k < at ==> !spec_ranks_before(item, #[trigger] items[k]),
        at < items.len() ==> spec_ranks_before(item, items[at]),
    ensures
        ranked(items.insert(at, item)),
{
    let grown = items.insert(at, item);
    assert forall|i: int, j: int| 0 <= i < j < grown.len() implies !spec_ranks_before(
        #[trigger] grown[j],
        #[trigger] grown[i],
    ) by {
        if j < at {
            assert(grown[i] == items[i]);
            assert(grown[j] == items[j]);
        } else if j == at {
            assert(grown[i] == items[i]);
        } else if i < at {
            assert(grown[i] == items[i]);
            assert(grown[j] == items[j - 1]);
        } else if i == at {
            assert(grown[j] == items[j - 1]);
            lemma_ranking_is_strict(item, items[at], items[j - 1]);
            lemma_ranking_is_strict(items[j - 1], item, items[at]);
            if j - 1 > at {
                assert(!spec_ranks_before(items[j - 1], items[at]));
            }
        } else {
            assert(grown[i] == items[i - 1]);
            assert(grown[j] == items[j - 1]);
        }
    }
}

/// An empty list holds nothing.
pub proof fn lemma_nothing_on_offer(items: Seq<(Seq<char>, u64)>)
    requires
        items.len() == 0,
    ensures
        items.to_multiset() == vstd::multiset::Multiset::<(Seq<char>, u64)>::empty(),
{
    items.to_multiset_ensures();
    vstd::multiset::lemma_multiset_empty_len(items.to_multiset());
}

/// Whether `a` is offered before `b`.
pub fn ranks_before(a: &BranchItem, b: &BranchItem) -> (first: bool)
    ensures
        first == spec_ranks_before(item_view(*a), item_view(*b)),
{
    a.count > b.count || (a.count == b.count && before(a.name.as_str(), b.name.as_str()))
}

/// Puts the branches in the order in which they are offered: by count, the
/// highest first, and by name among equal counts. Nothing is added and
/// nothing is lost.
pub fn rank(items: Vec<BranchItem>) -> (offered: Vec<BranchItem>)
    ensures
        ranked(item_views(offered@)),
        item_views(offered@).to_multiset() == item_views(items@).to_multiset(),
{
    let mut pending = items;
    let mut offered: Vec<BranchItem> = Vec::new();
    assert(item_views(offered@) =~= Seq::empty());
    proof {
        lemma_nothing_on_offer(item_views(offered@));
        assert(item_views(pending@).to_multiset().add(item_views(offered@).to_multiset())
            =~= item_views(items@).to_multiset());
    }
    while pending.len() > 0
        invariant
            ranked(item_views(offered@)),
            item_views(pending@).to_multiset().add(item_views(offered@).to_multiset())
                == item_views(items@).to_multiset(),
        decreases pending.len(),
    {
        let ghost was_pending = pending@;
        let ghost was_offered = offered@;
        let item = pending.pop().unwrap();
        let mut at: usize = 0;
        while at < offered.len() && !ranks_before(&item, &offered[at])
            invariant
                at <= offered.len(),
                offered@ == was_offered,
                forall|k: int|
                    0 <= k < at ==> !spec_ranks_before(
                        item_view(item),
                        #[trigger] item_views(offered@)[k],
                    ),
            decreases offered.len() - at,
        {
            at += 1;
        }
        offered.insert(at, item);
        proof {
            let view = item_view(item);
            assert(item_views(offered@) =~= item_views(was_offered).insert(at as int, view));
            assert(item_views(was_pending) =~= item_views(pending@).push(view));
            lemma_insert_keeps_ranking(item_views(was_offered), at as int, view);
            to_multiset_insert(item_views(was_offered), at as int, view);
            to_multiset_build(item_views(pending@), view);
            assert(item_views(pending@).to_multiset().add(item_views(offered@).to_multiset())
                =~= item_views(was_pending).to_multiset().add(
                item_views(was_offered).to_multiset(),
            ));
        }
    }
    proof {
        assert(item_views(pending@) =~= Seq::empty());
        lemma_nothing_on_offer(item_views(pending@));
        assert(item_views(offered@).to_multiset() =~= item_views(items@).to_multiset());
    }
    offered
}

/// The branches `names`, each with its count from `store`, in the order in
/// which they are offered.
pub fn offer_branches(names: Vec<String>, store: &FrequencyStore) -> (offered: Vec<BranchItem>)
    ensures
        ranked(item_views(offered@)),
        item_views(offered@).to_multiset() == spec_offers(names@, store@).to_multiset(),
{
    let mut names = names;
    let ghost all = names@;
    let mut items: Vec<BranchItem> = Vec::new();
    assert(item_views(items@) =~= Seq::empty());
    proof {
        lemma_nothing_on_offer(item_views(items@));
        assert(spec_offers(names@, store@).to_multiset().add(item_views(items@).to_multiset())
            =~= spec_offers(all, store@).to_multiset());
    }
    while names.len() > 0
        invariant
            spec_offers(names@, store@).to_multiset().add(item_views(items@).to_multiset())
                == spec_offers(all, store@).to_multiset(),
        decreases names.len(),
    {
        let ghost was_names = names@;
        let ghost was_items = items@;
        let name = names.pop().unwrap();
        let count = store.count(name.as_str());
        let item = BranchItem { name, count };
        items.push(item);
        proof {
            let view = item_view(item);
            assert(item_views(items@) =~= item_views(was_items).push(view));
            assert(spec_offers(was_names, store@) =~= spec_offers(names@, store@).push(view));
            to_multiset_build(item_views(was_items), view);
            to_multiset_build(spec_offers(names@, store@), view);
            assert(spec_offers(names@, store@).to_multiset().add(item_views(items@).to_multiset())
                =~= spec_offers(was_names, store@).to_multiset().add(
                item_views(was_items).to_multiset(),
            ));
        }
    }
    proof {
        assert(spec_offers(names@, store@) =~= Seq::empty());
        lemma_nothing_on_offer(spec_offers(names@, store@));
        assert(item_views(items@).to_multiset() =~= spec_offers(all, store@).to_multiset());
    }
    rank(items)
}

} // verus!
