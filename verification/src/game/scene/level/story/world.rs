//! Story areas and the record of story advancements
use vstd::prelude::*;

use crate::game::scene::level::story::data::{StoryItem, StoryKey};

verus! {

/// Mark an entity that advances the story
pub struct StoryAdvancer;

/// Pushing onto a sequence inserts into its set of elements
proof fn lemma_push_to_set(keys: Seq<Seq<char>>, key: Seq<char>)
    ensures
        keys.push(key).to_set() == keys.to_set().insert(key),
{
    Seq::lemma_to_set_insert_commutes(keys, key);
    assert(keys.push(key) =~= keys + seq![key]);
}

/// A collection of story keys that have been advanced by a `StoryAdvancer`; each key is held once
pub struct StoryAdvancements {
    keys: Vec<StoryKey>,
}

impl View for StoryAdvancements {
    type V = Set<Seq<char>>;

    closed spec fn view(&self) -> Set<Seq<char>> {
        self.keys@.map_values(|key: String| key@).to_set()
    }
}

impl StoryAdvancements {
    /// No key is held twice
    #[verifier::type_invariant]
    closed spec fn keys_distinct(self) -> bool {
        forall|i: int, j: int|
            0 <= i < self.keys@.len() && 0 <= j < self.keys@.len() && i != j ==> self.keys@[i]@
                != self.keys@[j]@
    }

    /// A record of no advancements
    pub fn empty() -> (advancements: Self)
        ensures
            advancements@ == Set::<Seq<char>>::empty(),
    {
        let advancements = StoryAdvancements { keys: Vec::new() };
        assert(advancements@ =~= Set::<Seq<char>>::empty());
        advancements
    }

    /// A record of the given advancements; a key given twice is held once
    pub fn new(advancements: Vec<StoryKey>) -> (record: Self)
        ensures
            record@ == advancements@.map_values(|key: String| key@).to_set(),
    {
        let mut record = StoryAdvancements::empty();
        let mut i: usize = 0;
        while i < advancements.len()
            invariant
                i <= advancements@.len(),
                record@ == advancements@.take(i as int).map_values(|key: String| key@).to_set(),
            decreases advancements.len() - i,
        {
            record.advance(&advancements[i]);
            assert(advancements@.take(i + 1).map_values(|key: String| key@)
                =~= advancements@.take(i as int).map_values(|key: String| key@).push(
                advancements@[i as int]@,
            ));
            proof {
                lemma_push_to_set(
                    advancements@.take(i as int).map_values(|key: String| key@),
                    advancements@[i as int]@,
                );
            }
            assert(advancements@.take(i + 1).map_values(|key: String| key@).to_set()
                =~= advancements@.take(i as int).map_values(|key: String| key@).to_set().insert(
                advancements@[i as int]@,
            ));
            i = i + 1;
        }
        assert(advancements@.take(advancements.len() as int) =~= advancements@);
        record
    }

    /// Check if the story has been advanced by a key
    pub fn has_advanced(&self, key: &StoryKey) -> (advanced: bool)
        ensures
            advanced == self@.contains(key@),
    {
        let mut i: usize = 0;
        while i < self.keys.len()
            invariant
                i <= self.keys@.len(),
                forall|j: int| 0 <= j < i ==> self.keys@[j]@ != key@,
            decreases self.keys.len() - i,
        {
            if self.keys[i] == *key {
                assert(self.keys@.map_values(|k: String| k@)[i as int] == key@);
                return true;
            }
            i = i + 1;
        }
        assert(!self.keys@.map_values(|k: String| k@).contains(key@));
        false
    }

    /// Advance the story with a new key; whether the key is new
    pub fn advance(&mut self, key: &StoryKey) -> (added: bool)
        ensures
            added == !old(self)@.contains(key@),
            final(self)@ == old(self)@.insert(key@),
    {
        if self.has_advanced(key) {
            assert(self@.insert(key@) =~= self@);
            return false;
        }
        proof {
            use_type_invariant(&*self);
        }
        let ghost before = self.keys@.map_values(|k: String| k@);
        let mut keys: Vec<StoryKey> = Vec::new();
        std::mem::swap(&mut keys, &mut self.keys);
        keys.push(key.clone());
        assert(keys@.map_values(|k: String| k@) =~= before.push(key@));
        proof {
            lemma_push_to_set(before, key@);
        }
        assert forall|i: int, j: int|
            0 <= i < keys@.len() && 0 <= j < keys@.len() && i != j implies keys@[i]@ != keys@[j]@ by {
            if i == keys@.len() - 1 {
                assert(before[j] == keys@[j]@);
            } else if j == keys@.len() - 1 {
                assert(before[i] == keys@[i]@);
            }
        }
        self.keys = keys;
        true
    }

    /// The advanced keys, each once
    pub fn into_keys(self) -> (keys: Vec<StoryKey>)
        ensures
            keys@.map_values(|key: String| key@).to_set() == self@,
    {
        self.keys
    }
}

/// Once a key is advanced the story has advanced by it, and advancing it again changes nothing
pub proof fn lemma_advance_records(advanced: Set<Seq<char>>, key: Seq<char>)
    ensures
        advanced.insert(key).contains(key),
        advanced.insert(key).insert(key) == advanced.insert(key),
{
    assert(advanced.insert(key).insert(key) =~= advanced.insert(key));
}

/// Defines an interaction between a story advancer and a story area
pub struct StoryAdvancement {
    pub advancer: hecs::Entity,
    pub area: hecs::Entity,
    pub entry: StoryItem,
}

impl StoryAdvancement {
    /// Instantiate a new story advancement
    pub fn new(advancer: hecs::Entity, area: hecs::Entity, entry: StoryItem) -> (advancement: Self)
        ensures
            advancement.advancer == advancer,
            advancement.area == area,
            advancement.entry == entry,
    {
        Self { advancer, area, entry }
    }
}

/// The interactions, in order, whose story key is new: not in `seen` nor the key of an earlier
/// interaction
pub open spec fn fresh_advancements(seen: Set<Seq<char>>, interactions: Seq<StoryAdvancement>) -> Seq<
    StoryAdvancement,
>
    decreases interactions.len(),
{
    if interactions.len() == 0 {
        Seq::empty()
    } else {
        let key = interactions[0].entry.key@;
        if seen.contains(key) {
            fresh_advancements(seen, interactions.drop_first())
        } else {
            seq![interactions[0]] + fresh_advancements(seen.insert(key), interactions.drop_first())
        }
    }
}

/// The story key of each interaction, in order
pub open spec fn interaction_key_list(interactions: Seq<StoryAdvancement>) -> Seq<Seq<char>> {
    interactions.map_values(|interaction: StoryAdvancement| interaction.entry.key@)
}

/// The story keys of the interactions
pub open spec fn interaction_keys(interactions: Seq<StoryAdvancement>) -> Set<Seq<char>> {
    interaction_key_list(interactions).to_set()
}

/// Record the story interactions of a frame, in order, and give back those that advanced the
/// story: an area whose key was already advanced is passed over
pub fn advance_story(advancements: &mut StoryAdvancements, interactions: Vec<StoryAdvancement>) -> (fresh:
    Vec<StoryAdvancement>)
    ensures
        fresh@ == fresh_advancements(old(advancements)@, interactions@),
        final(advancements)@ == old(advancements)@.union(interaction_keys(interactions@)),
{
    let ghost all = interactions@;
    let ghost start = advancements@;
    let count = interactions.len();
    assert(all.len() == count);
    let mut remaining = interactions;
    let mut fresh: Vec<StoryAdvancement> = Vec::new();
    let mut i: usize = 0;
    assert(all.take(0).map_values(|interaction: StoryAdvancement| interaction.entry.key@).to_set()
        =~= Set::<Seq<char>>::empty());
    assert(all.skip(0) =~= all);
    while remaining.len() > 0
        invariant
            i <= all.len(),
            all.len() <= usize::MAX,
            remaining@ == all.skip(i as int),
            fresh@ + fresh_advancements(advancements@, remaining@) == fresh_advancements(start, all),
            advancements@ == start.union(interaction_keys(all.take(i as int))),
        decreases remaining.len(),
    {
        let interaction = remaining.remove(0);
        let ghost rest = remaining@;
        assert(rest =~= all.skip(i as int).drop_first());
        assert(all.skip(i as int).drop_first() =~= all.skip(i + 1));
        let ghost key = interaction.entry.key@;
        let ghost before = advancements@;
        assert(all.skip(i as int)[0] == interaction);
        assert(fresh_advancements(before, all.skip(i as int)) == (if before.contains(key) {
            fresh_advancements(before, rest)
        } else {
            seq![interaction] + fresh_advancements(before.insert(key), rest)
        }));
        proof {
            lemma_push_to_set(
                all.take(i as int).map_values(|interaction: StoryAdvancement| interaction.entry.key@),
                key,
            );
            assert(all.take(i + 1).map_values(|interaction: StoryAdvancement| interaction.entry.key@)
                =~= all.take(i as int).map_values(
                |interaction: StoryAdvancement| interaction.entry.key@,
            ).push(key));
        }
        if advancements.advance(&interaction.entry.key) {
            let ghost fresh_before = fresh@;
            fresh.push(interaction);
            assert(fresh@ =~= fresh_before + seq![interaction]);
            assert(fresh@ + fresh_advancements(advancements@, rest) =~= fresh_before + (seq![interaction]
                + fresh_advancements(before.insert(key), rest)));
        } else {
            assert(before.insert(key) =~= before);
        }
        assert(advancements@ =~= start.union(interaction_keys(all.take(i + 1))));
        i = i + 1;
    }
    assert(fresh@ + fresh_advancements(advancements@, remaining@) =~= fresh@);
    assert(all.take(i as int) =~= all);
    fresh
}

/// Once the interactions of a frame are recorded, the same interactions advance nothing more:
/// each story area advances the story once
pub proof fn lemma_advance_story_once(seen: Set<Seq<char>>, interactions: Seq<StoryAdvancement>)
    ensures
        fresh_advancements(seen.union(interaction_keys(interactions)), interactions)
            == Seq::<StoryAdvancement>::empty(),
    decreases interactions.len(),
{
    if interactions.len() > 0 {
        let first = interactions[0];
        let rest = interactions.drop_first();
        let all = seen.union(interaction_keys(interactions));
        assert(interaction_key_list(interactions)[0] == first.entry.key@);
        assert(interaction_keys(interactions).contains(first.entry.key@));
        assert(interaction_keys(rest).subset_of(interaction_keys(interactions))) by {
            assert forall|key: Seq<char>| interaction_keys(rest).contains(key) implies interaction_keys(
                interactions,
            ).contains(key) by {
                let i = choose|i: int|
                    0 <= i < rest.len() && #[trigger] interaction_key_list(rest)[i] == key;
                assert(interaction_key_list(interactions)[i + 1] == key);
            }
        }
        lemma_advance_story_once(all, rest);
        assert(all.union(interaction_keys(rest)) =~= all);
    }
}

/// Mark an area of the world for story advancement
pub struct StoryArea(pub StoryItem);

impl StoryArea {
    /// Instantiate a new story area
    pub fn new(entry: StoryItem) -> (area: Self)
        ensures
            area.0 == entry,
    {
        Self(entry)
    }
}

} // verus!
