//! Room tile exceptions and room markers
use vstd::prelude::*;

use crate::game::scene::level::parse::TileKey;
use crate::game::scene::level::room::collision::RoomCollision;
use crate::game::scene::level::room::meta::{
    Collectable,
    MapIndex,
    ObjMeta,
    ObjMetaView,
    TileBreakability,
    TileLayerType,
    TileMeta,
};
use crate::game::scene::level::story::data::{Story, StoryItem, StoryItemView, find_entry};

verus! {

/// Mark an entity with a room collider as the active room
#[derive(Debug, Clone, Default)]
pub struct ActiveRoom;

/// An exception to the tilemap that must be overridden
#[derive(Debug, Clone, Copy)]
pub struct RoomTileException {
    layer: TileLayerType,
    index: MapIndex,
    key: Option<TileKey>,
}

impl RoomTileException {
    /// The layer of the overridden tile
    pub closed spec fn layer(self) -> TileLayerType {
        self.layer
    }

    /// The index of the overridden tile in its layer
    pub closed spec fn index(self) -> MapIndex {
        self.index
    }

    /// The tile that replaces it, or nothing to remove it
    pub closed spec fn key(self) -> Option<TileKey> {
        self.key
    }

    /// Instantiate a new tile exception
    pub fn new(index: MapIndex, layer: TileLayerType, key: Option<TileKey>) -> (exception: Self)
        ensures
            exception.index() == index,
            exception.layer() == layer,
            exception.key() == key,
    {
        Self { index, key, layer }
    }

    /// Whether this exception overrides the tile at `index` of `layer`
    pub open spec fn applies_to(self, layer: TileLayerType, index: MapIndex) -> bool {
        self.layer() == layer && self.index() == index
    }
}

/// The first exception of `exceptions` that overrides the tile at `index` of `layer`
pub open spec fn first_exception(
    exceptions: Seq<RoomTileException>,
    layer: TileLayerType,
    index: MapIndex,
) -> Option<RoomTileException>
    decreases exceptions.len(),
{
    if exceptions.len() == 0 {
        None
    } else if exceptions[0].applies_to(layer, index) {
        Some(exceptions[0])
    } else {
        first_exception(exceptions.drop_first(), layer, index)
    }
}

/// Find the first exception that overrides the tile at `index` of `layer`
pub fn find_exception(exceptions: &Vec<RoomTileException>, layer: TileLayerType, index: MapIndex) -> (found:
    Option<RoomTileException>)
    ensures
        found == first_exception(exceptions@, layer, index),
{
    let mut i: usize = 0;
    assert(exceptions@.skip(0) =~= exceptions@);
    while i < exceptions.len()
        invariant
            i <= exceptions@.len(),
            first_exception(exceptions@, layer, index) == first_exception(
                exceptions@.skip(i as int),
                layer,
                index,
            ),
        decreases exceptions.len() - i,
    {
        let exception = exceptions[i];
        assert(exceptions@.skip(i as int)[0] == exception);
        assert(exceptions@.skip(i as int).drop_first() =~= exceptions@.skip(i + 1));
        if exception.layer == layer && exception.index == index {
            return Some(exception);
        }
        i = i + 1;
    }
    None
}

/// The marker a breakable collision tile carries
#[derive(Debug, Clone, Copy, PartialEq, Eq, Structural)]
pub enum BreakMarker {
    /// Destroyed by rockets
    Strong,
    /// Destroyed by rockets and bullets
    Soft,
    /// Destroyed by anything it collides with
    Fragile,
}

/// The render layer a tile is drawn on; a higher layer is drawn over a lower one
#[derive(Debug, Clone, Copy, PartialEq, Eq, Structural)]
pub enum TileRenderLayer {
    Layer4,
    Layer6,
    Layer7,
}

/// The components a tile of a room is given when the room is added to the world
#[derive(Debug, Clone, Copy, PartialEq, Eq, Structural)]
pub struct TilePlan {
    /// Whether the tile is drawn with its sprite
    pub sprite: bool,
    /// The layer the tile is drawn on
    pub render_layer: TileRenderLayer,
    /// Whether the tile gets a collider
    pub collider: bool,
    /// What the tile gives when collected
    pub collectable: Option<Collectable>,
    /// How the tile can be broken
    pub marker: Option<BreakMarker>,
    /// The damage the tile deals to the player, which makes it hostile
    pub damage: Option<u32>,
}

/// The render layer of the tiles of a layer
pub open spec fn render_layer_of(layer: TileLayerType) -> TileRenderLayer {
    match layer {
        TileLayerType::Foreground => TileRenderLayer::Layer7,
        TileLayerType::Collision => TileRenderLayer::Layer6,
        TileLayerType::Background => TileRenderLayer::Layer4,
    }
}

/// The marker a tile of the given breakability carries
pub open spec fn marker_of(breakability: TileBreakability) -> Option<BreakMarker> {
    match breakability {
        TileBreakability::Solid => None,
        TileBreakability::Strong => Some(BreakMarker::Strong),
        TileBreakability::Soft => Some(BreakMarker::Soft),
        TileBreakability::Brittle => Some(BreakMarker::Fragile),
    }
}

/// The components of a tile on `layer` with `meta`, whose collision mask is empty when
/// `mask_empty`: a sprite for tiles that collide with everything, and on the collision layer a
/// collider for a non-empty mask, the collectable, the break marker and the damage it deals
pub open spec fn tile_plan(layer: TileLayerType, meta: TileMeta, mask_empty: bool) -> TilePlan {
    let collision = layer == TileLayerType::Collision;
    TilePlan {
        sprite: meta.collision_layer == RoomCollision::All,
        render_layer: render_layer_of(layer),
        collider: collision && !mask_empty,
        collectable: if collision {
            meta.collectable
        } else {
            None
        },
        marker: if collision {
            marker_of(meta.breakability)
        } else {
            None
        },
        damage: if collision && meta.damage > 0 {
            Some(meta.damage)
        } else {
            None
        },
    }
}

/// Plan the tile at `index` of `layer` when its room is added to the world: nothing when an
/// exception removes it, else the components of [`tile_plan`]. Exceptions that replace a tile
/// with another are not supported.
pub fn plan_tile(
    exceptions: &Vec<RoomTileException>,
    layer: TileLayerType,
    index: MapIndex,
    meta: &TileMeta,
    mask_empty: bool,
) -> (plan: Option<TilePlan>)
    requires
        first_exception(exceptions@, layer, index) matches Some(exception) ==> exception.key()
            is None,
    ensures
        plan == (if first_exception(exceptions@, layer, index) is Some {
            None
        } else {
            Some(tile_plan(layer, *meta, mask_empty))
        }),
{
    if find_exception(exceptions, layer, index).is_some() {
        return None;
    }
    let collision = layer == TileLayerType::Collision;
    let render_layer = match layer {
        TileLayerType::Foreground => TileRenderLayer::Layer7,
        TileLayerType::Collision => TileRenderLayer::Layer6,
        TileLayerType::Background => TileRenderLayer::Layer4,
    };
    let marker = if collision {
        match meta.breakability {
            TileBreakability::Solid => None,
            TileBreakability::Strong => Some(BreakMarker::Strong),
            TileBreakability::Soft => Some(BreakMarker::Soft),
            TileBreakability::Brittle => Some(BreakMarker::Fragile),
        }
    } else {
        None
    };
    Some(TilePlan {
        sprite: meta.collision_layer == RoomCollision::All,
        render_layer,
        collider: collision && !mask_empty,
        collectable: if collision {
            meta.collectable
        } else {
            None
        },
        marker,
        damage: if collision && meta.damage > 0 {
            Some(meta.damage)
        } else {
            None
        },
    })
}

/// What the story says of an object of a room: whether the object is added to the world, and
/// the story entry it carries
pub open spec fn object_story_of<P, S>(story: Story, object: ObjMetaView<P, S>) -> (bool, Option<
    StoryItemView,
>) {
    match object {
        ObjMetaView::StoryConcept { key, .. } => {
            let entry = find_entry(story@, key);
            (entry is Some, entry)
        },
        ObjMetaView::SaveAreaConcept { .. } => (true, find_entry(story@, "save"@)),
        _ => (true, None),
    }
}

/// Look up the story entry of an object of a room when the room is added to the world: a story
/// area carries the entry of its key and is left out when there is none, a save area carries the
/// entry of the save, and the creatures carry nothing. Returns whether the object is added, and
/// its entry.
pub fn object_story<P, S>(story: &Story, object: &ObjMeta<P, S>) -> (tied: (bool, Option<StoryItem>))
    ensures
        tied.0 == object_story_of(*story, object@).0,
        tied.1 matches Some(entry) ==> object_story_of(*story, object@).1 == Some(entry@),
        tied.1 is None ==> object_story_of(*story, object@).1 is None,
{
    match object {
        ObjMeta::StoryConcept { key, .. } => {
            let entry = story.get_entry(key.as_str());
            (entry.is_some(), entry)
        },
        ObjMeta::SaveAreaConcept { .. } => (true, story.get_entry("save")),
        _ => (true, None),
    }
}

/// The components planned for a tile: on the collision layer the break marker keeps the tile's
/// breakability (strong stays strong, soft stays soft, brittle becomes fragile, solid gets none),
/// the collectable is kept, the damage is carried when there is any, and a collider is added
/// exactly when the mask has a side; off the collision layer none of these are planned. A sprite
/// is drawn exactly for tiles that collide with everything, and each layer has its own render
/// layer, the foreground drawn over the collision layer and that over the background
pub proof fn lemma_tile_plan_components(layer: TileLayerType, meta: TileMeta, mask_empty: bool)
    ensures
        ({
            let plan = tile_plan(layer, meta, mask_empty);
            &&& layer == TileLayerType::Collision ==> {
                &&& (plan.marker == Some(BreakMarker::Strong) <==> meta.breakability
                    == TileBreakability::Strong)
                &&& (plan.marker == Some(BreakMarker::Soft) <==> meta.breakability
                    == TileBreakability::Soft)
                &&& (plan.marker == Some(BreakMarker::Fragile) <==> meta.breakability
                    == TileBreakability::Brittle)
                &&& (plan.marker is None <==> meta.breakability == TileBreakability::Solid)
                &&& plan.collectable == meta.collectable
                &&& (plan.damage is Some <==> meta.damage > 0)
                &&& (meta.damage > 0 ==> plan.damage == Some(meta.damage))
                &&& (plan.collider <==> !mask_empty)
                &&& plan.render_layer == TileRenderLayer::Layer6
            }
            &&& layer != TileLayerType::Collision ==> {
                &&& plan.marker is None
                &&& plan.collectable is None
                &&& plan.damage is None
                &&& !plan.collider
            }
            &&& layer == TileLayerType::Foreground ==> plan.render_layer == TileRenderLayer::Layer7
            &&& layer == TileLayerType::Background ==> plan.render_layer == TileRenderLayer::Layer4
            &&& (plan.sprite <==> meta.collision_layer == RoomCollision::All)
        }),
{
}

/// The exception found for a tile overrides that tile, and one is found exactly when some
/// exception of the list overrides the tile, the earliest of them
pub proof fn lemma_first_exception(exceptions: Seq<RoomTileException>, layer: TileLayerType, index: MapIndex)
    ensures
        first_exception(exceptions, layer, index) matches Some(e) ==> e.layer() == layer && e.index()
            == index,
        first_exception(exceptions, layer, index) is Some <==> exists|j: int|
            0 <= j < exceptions.len() && (#[trigger] exceptions[j]).applies_to(layer, index),
        first_exception(exceptions, layer, index) matches Some(e) ==> exists|j: int|
            0 <= j < exceptions.len() && exceptions[j] == e && forall|k: int|
                0 <= k < j ==> !(#[trigger] exceptions[k]).applies_to(layer, index),
    decreases exceptions.len(),
{
    if exceptions.len() > 0 {
        let rest = exceptions.drop_first();
        lemma_first_exception(rest, layer, index);
        if !exceptions[0].applies_to(layer, index) {
            if exists|j: int| 0 <= j < exceptions.len() && (#[trigger] exceptions[j]).applies_to(
                layer,
                index,
            ) {
                let j = choose|j: int|
                    0 <= j < exceptions.len() && (#[trigger] exceptions[j]).applies_to(layer, index);
                assert(rest[j - 1] == exceptions[j]);
            }
            if exists|j: int| 0 <= j < rest.len() && (#[trigger] rest[j]).applies_to(layer, index) {
                let j = choose|j: int| 0 <= j < rest.len() && (#[trigger] rest[j]).applies_to(layer, index);
                assert(exceptions[j + 1] == rest[j]);
            }
            if let Some(e) = first_exception(exceptions, layer, index) {
                let j = choose|j: int|
                    0 <= j < rest.len() && rest[j] == e && forall|k: int|
                        0 <= k < j ==> !(#[trigger] rest[k]).applies_to(layer, index);
                assert(exceptions[j + 1] == e);
                assert forall|k: int| 0 <= k < j + 1 implies !(#[trigger] exceptions[k]).applies_to(
                    layer,
                    index,
                ) by {
                    if k > 0 {
                        assert(exceptions[k] == rest[k - 1]);
                    }
                }
            }
        }
    }
}

/// A story area is added only when the story has an entry for its key, and then carries that
/// entry; a save area is always added and carries the entry of the save when there is one; every
/// creature is added and carries no entry
pub proof fn lemma_object_story<P, S>(story: Story, object: ObjMetaView<P, S>)
    ensures
        object matches ObjMetaView::StoryConcept { key, .. } ==> {
            &&& object_story_of(story, object).0 == find_entry(story@, key) is Some
            &&& object_story_of(story, object).1 == find_entry(story@, key)
        },
        object is SaveAreaConcept ==> {
            &&& object_story_of(story, object).0
            &&& object_story_of(story, object).1 == find_entry(story@, "save"@)
        },
        !(object is StoryConcept) && !(object is SaveAreaConcept) ==> object_story_of(story, object)
            == (true, None::<StoryItemView>),
        object_story_of(story, object).1 matches Some(entry) ==> object_story_of(story, object).0,
{
}

} // verus!
