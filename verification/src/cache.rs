//! The cursor positions remembered for the screens that were left.

use vstd::prelude::*;
use crate::views::{ViewModel, ViewType};

verus! {

/// A cursor: the selected row and the first row shown.
pub type Cursor = (usize, usize);

/// The remembered cursors as a mathematical value.
pub type CacheModel = Map<ViewModel, Cursor>;

/// The map that a list of entries stands for; a later entry for a screen
/// replaces an earlier one.
pub open spec fn map_of(entries: Seq<(ViewModel, Cursor)>) -> CacheModel
    decreases entries.len(),
{
    if entries.len() == 0 {
        Map::empty()
    } else {
        map_of(entries.drop_last()).insert(entries.last().0, entries.last().1)
    }
}

proof fn lemma_absent(entries: Seq<(ViewModel, Cursor)>, key: ViewModel)
    requires
        forall|j: int| 0 <= j < entries.len() ==> (#[trigger] entries[j]).0 != key,
    ensures
        !map_of(entries).contains_key(key),
    decreases entries.len(),
{
    if entries.len() > 0 {
        assert(entries.last() == entries[entries.len() - 1]);
        let front = entries.drop_last();
        assert forall|j: int| 0 <= j < front.len() implies (#[trigger] front[j]).0 != key by {
            assert(front[j] == entries[j]);
        }
        lemma_absent(front, key);
    }
}

proof fn lemma_last_entry(entries: Seq<(ViewModel, Cursor)>, i: int, key: ViewModel)
    requires
        0 <= i < entries.len(),
        entries[i].0 == key,
        forall|j: int| i < j < entries.len() ==> (#[trigger] entries[j]).0 != key,
    ensures
        map_of(entries).contains_key(key),
        map_of(entries)[key] == entries[i].1,
    decreases entries.len(),
{
    let front = entries.drop_last();
    if i < entries.len() - 1 {
        assert(entries.last() == entries[entries.len() - 1]);
        assert(front[i] == entries[i]);
        assert forall|j: int| i < j < front.len() implies (#[trigger] front[j]).0 != key by {
            assert(front[j] == entries[j]);
        }
        lemma_last_entry(front, i, key);
    }
}

proof fn lemma_replace(entries: Seq<(ViewModel, Cursor)>, i: int, key: ViewModel, cursor: Cursor)
    requires
        0 <= i < entries.len(),
        entries[i].0 == key,
        forall|j: int| i < j < entries.len() ==> (#[trigger] entries[j]).0 != key,
    ensures
        map_of(entries.update(i, (key, cursor))) == map_of(entries).insert(key, cursor),
    decreases entries.len(),
{
    let front = entries.drop_last();
    let changed = entries.update(i, (key, cursor));
    if i == entries.len() - 1 {
        assert(changed.drop_last() =~= front);
        assert(map_of(changed) =~= map_of(entries).insert(key, cursor));
    } else {
        assert(entries.last() == entries[entries.len() - 1]);
        assert(front[i] == entries[i]);
        assert forall|j: int| i < j < front.len() implies (#[trigger] front[j]).0 != key by {
            assert(front[j] == entries[j]);
        }
        lemma_replace(front, i, key, cursor);
        assert(changed.drop_last() =~= front.update(i, (key, cursor)));
        assert(changed.last() == entries.last());
        assert(map_of(changed) =~= map_of(entries).insert(key, cursor));
    }
}

/// The cursors remembered for the screens that were left, by screen.
#[derive(Debug)]
pub struct ViewStateCache {
    entries: Vec<(ViewType, Cursor)>,
}

impl View for ViewStateCache {
    type V = CacheModel;

    closed spec fn view(&self) -> CacheModel {
        map_of(self.entries.deep_view())
    }
}

impl ViewStateCache {
    /// The cache that remembers nothing.
    pub fn new() -> (r: Self)
        ensures
            r@ == Map::<ViewModel, Cursor>::empty(),
    {
        let r = ViewStateCache { entries: Vec::new() };
        assert(r.entries.deep_view() =~= Seq::empty());
        r
    }

    /// The cursor remembered for `view`, if there is one.
    pub fn get(&self, view: &ViewType) -> (r: Option<Cursor>)
        ensures
            r == if self@.contains_key(view@) {
                Some(self@[view@])
            } else {
                None
            },
    {
        let ghost entries = self.entries.deep_view();
        let mut i: usize = self.entries.len();
        while i > 0
            invariant
                i <= self.entries.len(),
                entries == self.entries.deep_view(),
                forall|j: int| i <= j < entries.len() ==> (#[trigger] entries[j]).0 != view@,
            decreases i,
        {
            i -= 1;
            if self.entries[i].0 == *view {
                proof {
                    lemma_last_entry(entries, i as int, view@);
                }
                return Some(self.entries[i].1);
            }
        }
        proof {
            lemma_absent(entries, view@);
        }
        None
    }

    /// Remembers `cursor` for `view`, in place of what was remembered for it.
    pub fn insert(&mut self, view: ViewType, cursor: Cursor)
        ensures
            final(self)@ == old(self)@.insert(view@, cursor),
    {
        let ghost entries = self.entries.deep_view();
        let mut i: usize = self.entries.len();
        while i > 0
            invariant
                i <= self.entries.len(),
                entries == self.entries.deep_view(),
                entries == old(self).entries.deep_view(),
                forall|j: int| i <= j < entries.len() ==> (#[trigger] entries[j]).0 != view@,
            decreases i,
        {
            i -= 1;
            if self.entries[i].0 == view {
                proof {
                    lemma_replace(entries, i as int, view@, cursor);
                }
                self.entries[i] = (view, cursor);
                assert(self.entries.deep_view() =~= entries.update(i as int, (view@, cursor)));
                return ;
            }
        }
        self.entries.push((view, cursor));
        proof {
            let now = self.entries.deep_view();
            assert(now.drop_last() =~= entries);
            assert(now.last() == (view@, cursor));
        }
    }
}

} // verus!
