//! Metadata for layers and tiles as the first tilemap format describes it
use vstd::prelude::*;

use crate::game::scene::level::room::meta::{damage_from, direction_or, names_direction, no_direction};
use crate::game::scene::level::room::meta;
use crate::game::scene::level::tile::tiled::{TiledObject, TiledProperties, property_value};
use crate::game::utility::direction::Direction;
use crate::game::utility::text::{
    err_view,
    keyword,
    lowercased,
    message_with,
    str_eq,
    to_lowercase,
    trim,
    trimmed,
};

verus! {

/// The type of collectable item
#[derive(Clone, Copy, Debug, PartialEq, Eq, Structural)]
pub enum CollectableType {
    Health,
    Power,
    MissileTank,
    IceBeam,
    HighJump,
}

/// Defines the level of breakability for a tile
#[derive(Clone, Copy, Debug, PartialEq, Eq, Structural)]
pub enum TileBreakability {
    Solid,
    Strong,
    Soft,
}

impl Default for TileBreakability {
    fn default() -> (breakability: Self)
        ensures
            breakability == TileBreakability::Solid,
    {
        TileBreakability::Solid
    }
}

/// Strong tiles can be destroyed by StrongDestructive components
#[derive(Default)]
pub struct Strong;

/// Soft tiles can be destroyed by SoftDestructive components
#[derive(Default)]
pub struct Soft;

/// Name of the custom class for a tile in Tiled
pub const TILED_TILE_CLASS: &'static str = "Tile";

/// Metadata for a tileset tile
#[derive(Clone, Copy, Debug)]
pub struct TileMeta {
    pub breakability: TileBreakability,
    pub collectable: Option<CollectableType>,
    pub damage: u32,
}

impl Default for TileMeta {
    fn default() -> (tile_meta: Self)
        ensures
            tile_meta == (TileMeta { breakability: TileBreakability::Solid, collectable: None, damage: 0 }),
    {
        TileMeta { breakability: TileBreakability::Solid, collectable: None, damage: 0 }
    }
}

/// The behaviour and rendering order of a tile layer
#[derive(Clone, Copy, Debug, PartialEq, Eq, Hash, Structural)]
pub enum TileLayerType {
    Foreground,
    Collision,
    Background,
}

impl Default for TileLayerType {
    fn default() -> (layer: Self)
        ensures
            layer == TileLayerType::Collision,
    {
        TileLayerType::Collision
    }
}

/// Extract a specific property from a collection of properties
pub fn get_property<'a>(name: &str, properties: &'a Option<TiledProperties>) -> (value: Option<
    &'a str,
>)
    ensures
        value matches Some(v) ==> property_value(*properties, name@) == Some(v@),
        value is None ==> property_value(*properties, name@) is None,
{
    meta::get_property(name, properties)
}

/// What a `collectable` property value parses to
pub open spec fn collectable_from(value: Option<Seq<char>>) -> Result<Option<CollectableType>, Seq<char>> {
    match value {
        None => Ok(None),
        Some(v) => {
            let k = keyword(v);
            if k == "health"@ {
                Ok(Some(CollectableType::Health))
            } else if k == "power"@ {
                Ok(Some(CollectableType::Power))
            } else if k == "missile_tank"@ {
                Ok(Some(CollectableType::MissileTank))
            } else if k == "ice_beam"@ {
                Ok(Some(CollectableType::IceBeam))
            } else if k == "high_jump"@ {
                Ok(Some(CollectableType::HighJump))
            } else if k == "none"@ {
                Err("Collectable must have a type"@)
            } else {
                Err("Invalid collectable type: "@ + k)
            }
        },
    }
}

/// Parse the collectable property from a collection of properties
pub fn parse_collectable(properties: &Option<TiledProperties>) -> (parsed: Result<
    Option<CollectableType>,
    String,
>)
    ensures
        err_view(parsed) == collectable_from(property_value(*properties, "collectable"@)),
{
    if let Some(prop) = get_property("collectable", properties) {
        let lower = to_lowercase(trim(prop));
        let k = lower.as_str();
        let collectable = if str_eq(k, "health") {
            CollectableType::Health
        } else if str_eq(k, "power") {
            CollectableType::Power
        } else if str_eq(k, "missile_tank") {
            CollectableType::MissileTank
        } else if str_eq(k, "ice_beam") {
            CollectableType::IceBeam
        } else if str_eq(k, "high_jump") {
            CollectableType::HighJump
        } else if str_eq(k, "none") {
            return Err(String::from_str("Collectable must have a type"));
        } else {
            return Err(message_with("Invalid collectable type: ", k));
        };
        return Ok(Some(collectable));
    }
    Ok(None)
}

/// What a `breakability` property value parses to
pub open spec fn breakability_from(value: Option<Seq<char>>) -> Result<TileBreakability, Seq<char>> {
    match value {
        None => Ok(TileBreakability::Solid),
        Some(v) => {
            let k = keyword(v);
            if k == "solid"@ {
                Ok(TileBreakability::Solid)
            } else if k == "strong"@ {
                Ok(TileBreakability::Strong)
            } else if k == "soft"@ {
                Ok(TileBreakability::Soft)
            } else {
                Err("Invalid breakability: "@ + k)
            }
        },
    }
}

/// Extract the breakability property from a collection of properties
pub fn parse_breakability(properties: &Option<TiledProperties>) -> (parsed: Result<
    TileBreakability,
    String,
>)
    ensures
        err_view(parsed) == breakability_from(property_value(*properties, "breakability"@)),
{
    let prop = get_property("breakability", properties);
    if let Some(prop) = prop {
        let lower = to_lowercase(trim(prop));
        let k = lower.as_str();
        return if str_eq(k, "solid") {
            Ok(TileBreakability::Solid)
        } else if str_eq(k, "strong") {
            Ok(TileBreakability::Strong)
        } else if str_eq(k, "soft") {
            Ok(TileBreakability::Soft)
        } else {
            Err(message_with("Invalid breakability: ", k))
        };
    }
    Ok(TileBreakability::default())
}

/// What a layer `type` property value parses to; the error quotes the raw value
pub open spec fn tilelayer_from(value: Option<Seq<char>>) -> Result<TileLayerType, Seq<char>> {
    match value {
        None => Ok(TileLayerType::Collision),
        Some(v) => {
            let k = keyword(v);
            if k == "foreground"@ {
                Ok(TileLayerType::Foreground)
            } else if k == "collision"@ {
                Ok(TileLayerType::Collision)
            } else if k == "background"@ {
                Ok(TileLayerType::Background)
            } else {
                Err("Invalid layer: "@ + v)
            }
        },
    }
}

/// Extract the layer type property from a collection of properties
pub fn parse_tilelayer(properties: &Option<TiledProperties>) -> (parsed: Result<
    TileLayerType,
    String,
>)
    ensures
        err_view(parsed) == tilelayer_from(property_value(*properties, "type"@)),
{
    if let Some(prop) = get_property("type", properties) {
        let lower = to_lowercase(trim(prop));
        let k = lower.as_str();
        return if str_eq(k, "foreground") {
            Ok(TileLayerType::Foreground)
        } else if str_eq(k, "collision") {
            Ok(TileLayerType::Collision)
        } else if str_eq(k, "background") {
            Ok(TileLayerType::Background)
        } else {
            Err(message_with("Invalid layer: ", prop))
        };
    }
    Ok(TileLayerType::default())
}

/// Extract the damage property from a collection of properties
pub fn parse_damage(properties: &Option<TiledProperties>) -> (parsed: Result<u32, String>)
    ensures
        err_view(parsed) == damage_from(property_value(*properties, "damage"@)),
{
    meta::parse_damage("damage", properties)
}

/// Metadata for a tilemap object; `P` is a position, carried through
#[derive(Clone, Copy, Debug)]
pub enum ObjMeta<P> {
    BuzzConcept { position: P },
    SpikyConcept { direction: Direction, position: P },
    ZoomerConcept { direction: Direction, position: P },
    RipperConcept { direction: Direction, position: P },
}

/// The object metadata a Tiled object describes in the first tilemap format
pub open spec fn obj_meta_from<P, S>(object: TiledObject<P, S>) -> Result<ObjMeta<P>, Seq<char>> {
    let position = object.position;
    let kind = lowercased(trimmed(object.object_type@));
    let direction = direction_or(object.properties, Direction::Right);
    if kind == "buzz"@ {
        Ok(ObjMeta::BuzzConcept { position })
    } else if kind == "ripper"@ {
        Ok(ObjMeta::RipperConcept { direction, position })
    } else if kind == "spiky"@ {
        Ok(ObjMeta::SpikyConcept { direction, position })
    } else if kind == "zoomer"@ {
        Ok(ObjMeta::ZoomerConcept { direction, position })
    } else {
        Err("Unknown object type: "@ + kind)
    }
}

/// The direction property of an object, or `Right` when it is missing or names no direction
fn direction_or_right(properties: &Option<TiledProperties>) -> (direction: Direction)
    ensures
        direction == direction_or(*properties, Direction::Right),
{
    match get_property("direction", properties) {
        Some(name) => match Direction::from_name(name) {
            Ok(direction) => direction,
            Err(_) => Direction::Right,
        },
        None => Direction::Right,
    }
}

/// Parse a TiledObject into an ObjMeta
pub fn parse_object<P: Copy, S>(object: &TiledObject<P, S>) -> (meta: Result<ObjMeta<P>, String>)
    ensures
        err_view(meta) == obj_meta_from(*object),
{
    let position = object.position;
    let lower = to_lowercase(trim(object.object_type.as_str()));
    let kind = lower.as_str();
    let meta = if str_eq(kind, "buzz") {
        ObjMeta::BuzzConcept { position }
    } else if str_eq(kind, "ripper") {
        let direction = direction_or_right(&object.properties);
        ObjMeta::RipperConcept { direction, position }
    } else if str_eq(kind, "spiky") {
        let direction = direction_or_right(&object.properties);
        ObjMeta::SpikyConcept { direction, position }
    } else if str_eq(kind, "zoomer") {
        let direction = direction_or_right(&object.properties);
        ObjMeta::ZoomerConcept { direction, position }
    } else {
        return Err(message_with("Unknown object type: ", kind));
    };
    Ok(meta)
}

/// Each layer keyword of the first format names the layer type of the same name, whatever its
/// surrounding space and case; a layer without a type is a collision layer; any other keyword is
/// refused
pub proof fn lemma_first_layer_keywords(value: Seq<char>)
    ensures
        keyword(value) == "foreground"@ ==> tilelayer_from(Some(value)) == Ok::<TileLayerType, Seq<char>>(TileLayerType::Foreground),
        keyword(value) == "collision"@ ==> tilelayer_from(Some(value)) == Ok::<TileLayerType, Seq<char>>(TileLayerType::Collision),
        keyword(value) == "background"@ ==> tilelayer_from(Some(value)) == Ok::<TileLayerType, Seq<char>>(TileLayerType::Background),
        tilelayer_from(None) == Ok::<TileLayerType, Seq<char>>(TileLayerType::Collision),
        tilelayer_from(Some(value)) is Err <==> (keyword(value) != "foreground"@ && keyword(value)
            != "collision"@ && keyword(value) != "background"@),
{
    reveal_strlit("foreground");
    reveal_strlit("collision");
    reveal_strlit("background");
    assert("collision"@.len() != "foreground"@.len());
    assert("background"@[0] != "foreground"@[0]);
    assert("background"@.len() != "collision"@.len());
}

/// Each breakability keyword of the first format names the breakability of the same name; a
/// tile without one is solid; any other keyword is refused
pub proof fn lemma_first_breakability_keywords(value: Seq<char>)
    ensures
        keyword(value) == "solid"@ ==> breakability_from(Some(value)) == Ok::<TileBreakability, Seq<char>>(TileBreakability::Solid),
        keyword(value) == "strong"@ ==> breakability_from(Some(value)) == Ok::<TileBreakability, Seq<char>>(TileBreakability::Strong),
        keyword(value) == "soft"@ ==> breakability_from(Some(value)) == Ok::<TileBreakability, Seq<char>>(TileBreakability::Soft),
        breakability_from(None) == Ok::<TileBreakability, Seq<char>>(TileBreakability::Solid),
        breakability_from(Some(value)) is Err <==> (keyword(value) != "solid"@ && keyword(value)
            != "strong"@ && keyword(value) != "soft"@),
{
    reveal_strlit("solid");
    reveal_strlit("strong");
    reveal_strlit("soft");
    assert("strong"@.len() != "solid"@.len());
    assert("soft"@.len() != "solid"@.len());
    assert("soft"@.len() != "strong"@.len());
}

/// Each collectable keyword of the first format names the collectable of the same name; `none`
/// and any other keyword are refused; a tile without one holds no collectable
pub proof fn lemma_first_collectable_keywords(value: Seq<char>)
    ensures
        keyword(value) == "health"@ ==> collectable_from(Some(value)) == Ok::<Option<CollectableType>, Seq<char>>(Some(CollectableType::Health)),
        keyword(value) == "power"@ ==> collectable_from(Some(value)) == Ok::<Option<CollectableType>, Seq<char>>(Some(CollectableType::Power)),
        keyword(value) == "missile_tank"@ ==> collectable_from(Some(value)) == Ok::<Option<CollectableType>, Seq<char>>(Some(CollectableType::MissileTank)),
        keyword(value) == "ice_beam"@ ==> collectable_from(Some(value)) == Ok::<Option<CollectableType>, Seq<char>>(Some(CollectableType::IceBeam)),
        keyword(value) == "high_jump"@ ==> collectable_from(Some(value)) == Ok::<Option<CollectableType>, Seq<char>>(Some(CollectableType::HighJump)),
        keyword(value) == "none"@ ==> collectable_from(Some(value)) == Err::<Option<CollectableType>, Seq<char>>("Collectable must have a type"@),
        collectable_from(None) == Ok::<Option<CollectableType>, Seq<char>>(None),
        collectable_from(Some(value)) is Err <==> (keyword(value) != "health"@ && keyword(value)
            != "power"@ && keyword(value) != "missile_tank"@ && keyword(value) != "ice_beam"@
            && keyword(value) != "high_jump"@),
{
    reveal_strlit("health");
    reveal_strlit("power");
    reveal_strlit("missile_tank");
    reveal_strlit("ice_beam");
    reveal_strlit("high_jump");
    reveal_strlit("none");
    assert("power"@.len() != "health"@.len());
    assert("missile_tank"@.len() != "health"@.len());
    assert("missile_tank"@.len() != "power"@.len());
    assert("ice_beam"@.len() != "health"@.len());
    assert("ice_beam"@.len() != "power"@.len());
    assert("ice_beam"@.len() != "missile_tank"@.len());
    assert("high_jump"@.len() != "health"@.len());
    assert("high_jump"@.len() != "power"@.len());
    assert("high_jump"@.len() != "missile_tank"@.len());
    assert("high_jump"@.len() != "ice_beam"@.len());
    assert("none"@.len() != "health"@.len());
    assert("none"@.len() != "power"@.len());
    assert("none"@.len() != "missile_tank"@.len());
    assert("none"@.len() != "ice_beam"@.len());
    assert("none"@.len() != "high_jump"@.len());
}

/// A creature of the first format takes the direction its `direction` property names, and faces
/// right when the property is missing or names no direction
pub proof fn lemma_first_object_directions<P, S>(object: TiledObject<P, S>, direction: Direction)
    ensures
        names_direction(object.properties, direction) ==> {
            &&& keyword(object.object_type@) == "ripper"@ ==> obj_meta_from(object) == Ok::<ObjMeta<P>, Seq<char>>(ObjMeta::RipperConcept { direction, position: object.position })
            &&& keyword(object.object_type@) == "spiky"@ ==> obj_meta_from(object) == Ok::<ObjMeta<P>, Seq<char>>(ObjMeta::SpikyConcept { direction, position: object.position })
            &&& keyword(object.object_type@) == "zoomer"@ ==> obj_meta_from(object) == Ok::<ObjMeta<P>, Seq<char>>(ObjMeta::ZoomerConcept { direction, position: object.position })
        },
        no_direction(object.properties) ==> {
            &&& keyword(object.object_type@) == "ripper"@ ==> obj_meta_from(object) == Ok::<ObjMeta<P>, Seq<char>>(ObjMeta::RipperConcept { direction: Direction::Right, position: object.position })
            &&& keyword(object.object_type@) == "spiky"@ ==> obj_meta_from(object) == Ok::<ObjMeta<P>, Seq<char>>(ObjMeta::SpikyConcept { direction: Direction::Right, position: object.position })
            &&& keyword(object.object_type@) == "zoomer"@ ==> obj_meta_from(object) == Ok::<ObjMeta<P>, Seq<char>>(ObjMeta::ZoomerConcept { direction: Direction::Right, position: object.position })
        },
        keyword(object.object_type@) == "buzz"@ ==> obj_meta_from(object) == Ok::<ObjMeta<P>, Seq<char>>(ObjMeta::BuzzConcept { position: object.position }),
{
    reveal_strlit("buzz");
    reveal_strlit("ripper");
    reveal_strlit("spiky");
    reveal_strlit("zoomer");
    assert("ripper"@.len() != "buzz"@.len());
    assert("spiky"@.len() != "buzz"@.len());
    assert("spiky"@.len() != "ripper"@.len());
    assert("zoomer"@.len() != "buzz"@.len());
    assert("zoomer"@[0] != "ripper"@[0]);
    assert("zoomer"@.len() != "spiky"@.len());
}

} // verus!
