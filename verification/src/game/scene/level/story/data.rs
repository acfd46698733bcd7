//! Story progression entries
use vstd::prelude::*;

use crate::game::utility::text::str_eq;

verus! {

/// The key of a story entry
pub type StoryKey = String;

/// A single entry of story progression
pub struct StoryItem {
    pub key: StoryKey,
    pub title: String,
    pub data: Vec<String>,
    pub endgame: bool,
}

/// A story entry as plain values
pub struct StoryItemView {
    pub key: Seq<char>,
    pub title: Seq<char>,
    pub data: Seq<Seq<char>>,
    pub endgame: bool,
}

impl View for StoryItem {
    type V = StoryItemView;

    open spec fn view(&self) -> StoryItemView {
        StoryItemView {
            key: self.key@,
            title: self.title@,
            data: self.data@.map_values(|line: String| line@),
            endgame: self.endgame,
        }
    }
}

/// Copy a list of lines
fn copy_lines(lines: &Vec<String>) -> (copy: Vec<String>)
    ensures
        copy@.map_values(|line: String| line@) == lines@.map_values(|line: String| line@),
{
    let mut copy: Vec<String> = Vec::new();
    let mut i: usize = 0;
    while i < lines.len()
        invariant
            i <= lines@.len(),
            copy@.len() == i,
            forall|j: int| 0 <= j < i ==> copy@[j]@ == lines@[j]@,
        decreases lines.len() - i,
    {
        copy.push(lines[i].clone());
        i = i + 1;
    }
    assert(copy@.map_values(|line: String| line@) =~= lines@.map_values(|line: String| line@));
    copy
}

impl Clone for StoryItem {
    fn clone(&self) -> (copy: Self)
        ensures
            copy@ == self@,
    {
        StoryItem {
            key: self.key.clone(),
            title: self.title.clone(),
            data: copy_lines(&self.data),
            endgame: self.endgame,
        }
    }
}

/// Collection of story progression entries
pub struct Story {
    pub entries: Vec<StoryItem>,
}

impl View for Story {
    type V = Seq<StoryItemView>;

    open spec fn view(&self) -> Seq<StoryItemView> {
        self.entries@.map_values(|entry: StoryItem| entry@)
    }
}

/// The entries whose keys are not among `advanced`, in their order
pub open spec fn omitted(entries: Seq<StoryItemView>, advanced: Set<Seq<char>>) -> Seq<StoryItemView>
    decreases entries.len(),
{
    if entries.len() == 0 {
        entries
    } else if advanced.contains(entries.last().key) {
        omitted(entries.drop_last(), advanced)
    } else {
        omitted(entries.drop_last(), advanced).push(entries.last())
    }
}

/// The first entry whose key is `key`
pub open spec fn find_entry(entries: Seq<StoryItemView>, key: Seq<char>) -> Option<StoryItemView>
    decreases entries.len(),
{
    if entries.len() == 0 {
        None
    } else {
        match find_entry(entries.drop_last(), key) {
            Some(entry) => Some(entry),
            None => if entries.last().key == key {
                Some(entries.last())
            } else {
                None
            },
        }
    }
}

/// Once a prefix holds an entry for `key`, every longer prefix finds the same entry
proof fn lemma_find_entry_persists(entries: Seq<StoryItemView>, key: Seq<char>, k: int)
    requires
        0 <= k <= entries.len(),
        find_entry(entries.take(k), key) is Some,
    ensures
        find_entry(entries, key) == find_entry(entries.take(k), key),
    decreases entries.len() - k,
{
    if k < entries.len() {
        assert(entries.take(k + 1).drop_last() =~= entries.take(k));
        lemma_find_entry_persists(entries, key, k + 1);
    } else {
        assert(entries.take(k) =~= entries);
    }
}

/// Looking up a key in a story with its advanced entries omitted finds nothing for an advanced
/// key, and for any other key the same entry as the whole story
pub proof fn lemma_omit_then_find(
    entries: Seq<StoryItemView>,
    advanced: Set<Seq<char>>,
    key: Seq<char>,
)
    ensures
        find_entry(omitted(entries, advanced), key) == if advanced.contains(key) {
            None
        } else {
            find_entry(entries, key)
        },
    decreases entries.len(),
{
    if entries.len() > 0 {
        let rest = entries.drop_last();
        lemma_omit_then_find(rest, advanced, key);
        if !advanced.contains(entries.last().key) {
            assert(omitted(rest, advanced).push(entries.last()).drop_last() =~= omitted(
                rest,
                advanced,
            ));
        }
    }
}

impl Story {
    /// Omit story data entries that have been advanced
    pub fn omit(self, advancements: &crate::game::scene::level::story::world::StoryAdvancements) -> (
        story: Self)
        ensures
            story@ == omitted(self@, advancements@),
    {
        let ghost listed = self@;
        let mut remaining = self.entries;
        let mut kept: Vec<StoryItem> = Vec::new();
        let n = remaining.len();
        let mut done: usize = 0;
        assert(listed.take(0) =~= Seq::<StoryItemView>::empty());
        assert(remaining@.map_values(|entry: StoryItem| entry@) =~= listed.skip(0));
        while remaining.len() > 0
            invariant
                n == listed.len(),
                done + remaining@.len() == n,
                remaining@.map_values(|entry: StoryItem| entry@) == listed.skip(done as int),
                kept@.map_values(|entry: StoryItem| entry@) == omitted(
                    listed.take(done as int),
                    advancements@,
                ),
            decreases remaining.len(),
        {
            let ghost before = remaining@;
            let ghost kept_before = kept@.map_values(|entry: StoryItem| entry@);
            let entry = remaining.remove(0);
            assert(before.map_values(|entry: StoryItem| entry@)[0] == listed.skip(done as int)[0]);
            assert(entry@ == listed[done as int]);
            assert(remaining@ =~= before.subrange(1, before.len() as int));
            assert(listed.take(done + 1).drop_last() =~= listed.take(done as int));
            assert(listed.take(done + 1).last() == listed[done as int]);
            if !advancements.has_advanced(&entry.key) {
                kept.push(entry);
                assert(kept@.map_values(|entry: StoryItem| entry@) =~= kept_before.push(
                    listed[done as int],
                ));
            }
            assert forall|j: int| 0 <= j < remaining@.len() implies (#[trigger] remaining@[j])@
                == listed[done + 1 + j] by {
                assert(remaining@[j] == before[j + 1]);
                assert(before.map_values(|entry: StoryItem| entry@)[j + 1] == listed.skip(
                    done as int,
                )[j + 1]);
            }
            assert(remaining@.map_values(|entry: StoryItem| entry@) =~= listed.skip(done + 1));
            done = done + 1;
        }
        assert(listed.take(n as int) =~= listed);
        Story { entries: kept }
    }

    /// Find a story data entry by key
    pub fn get_entry(&self, key: &str) -> (entry: Option<StoryItem>)
        ensures
            entry matches Some(e) ==> find_entry(self@, key@) == Some(e@),
            entry is None ==> find_entry(self@, key@) is None,
    {
        let n = self.entries.len();
        let mut i: usize = 0;
        assert(self@.take(0) =~= Seq::<StoryItemView>::empty());
        while i < n
            invariant
                n == self@.len(),
                i <= n,
                find_entry(self@.take(i as int), key@) is None,
            decreases n - i,
        {
            assert(self@.take(i + 1).drop_last() =~= self@.take(i as int));
            assert(self@.take(i + 1).last() == self.entries@[i as int]@);
            if str_eq(self.entries[i].key.as_str(), key) {
                proof {
                    lemma_find_entry_persists(self@, key@, i + 1);
                }
                return Some(self.entries[i].clone());
            }
            i = i + 1;
        }
        assert(self@.take(n as int) =~= self@);
        None
    }
}

} // verus!
