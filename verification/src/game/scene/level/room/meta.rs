//! Parse metadata for layers, tiles, and objects
use vstd::prelude::*;

use crate::game::scene::level::room::collision::RoomCollision;
use crate::game::scene::level::tile::tiled::{
    TiledObject,
    TiledObjectGroup,
    TiledProperties,
    find_property,
    property_value,
};
use crate::game::utility::direction::{CompassDirectionType, Direction};
use crate::game::utility::text::{
    err_view,
    is_u32_text,
    keyword,
    message_with,
    parse_u32,
    str_eq,
    to_lowercase,
    trim,
    trimmed,
    lowercased,
    u32_parse_error,
    digits_value,
    unsigned_digits,
};

verus! {

/// Index of a tile within a tilemap layer
pub type MapIndex = usize;

/// An item collectable by Collections
#[derive(Clone, Copy, Debug, PartialEq, Eq, Structural)]
pub enum Collectable {
    Health,
    MissileTank,
    IceBeam,
    HighJump,
}

/// A Collectable that has been collected by the player
#[derive(Clone, Debug)]
pub struct Item {
    pub collectable: Collectable,
    pub map_index: MapIndex,
    pub room_name: String,
}

/// Reduce an Item into a Collectable
impl From<Item> for Collectable {
    fn from(item: Item) -> (collectable: Self) {
        item.collectable
    }
}

impl vstd::std_specs::convert::FromSpecImpl<Item> for Collectable {
    open spec fn obeys_from_spec() -> bool {
        true
    }

    open spec fn from_spec(item: Item) -> Self {
        item.collectable
    }
}

/// Defines the level of breakability for a tile
#[derive(Clone, Copy, Debug, PartialEq, Eq, Structural)]
pub enum TileBreakability {
    Solid,
    Strong,
    Soft,
    Brittle,
}

impl Default for TileBreakability {
    fn default() -> (breakability: Self)
        ensures
            breakability == TileBreakability::Solid,
    {
        TileBreakability::Solid
    }
}

/// Strong tiles can be destroyed by StrongDestructive components
#[derive(Default)]
pub struct Strong;

/// Soft tiles can be destroyed by SoftDestructive components
#[derive(Default)]
pub struct Soft;

/// Name of the custom class for a tile in Tiled
pub const TILED_TILE_CLASS: &'static str = "Tile";

/// Metadata for a tileset tile
#[derive(Clone, Debug)]
pub struct TileMeta {
    pub breakability: TileBreakability,
    pub collectable: Option<Collectable>,
    pub collision_layer: RoomCollision,
    pub damage: u32,
}

impl Default for TileMeta {
    fn default() -> (meta: Self)
        ensures
            meta == (TileMeta {
                breakability: TileBreakability::Solid,
                collectable: None,
                collision_layer: RoomCollision::All,
                damage: 0,
            }),
    {
        TileMeta {
            breakability: TileBreakability::Solid,
            collectable: None,
            collision_layer: RoomCollision::All,
            damage: 0,
        }
    }
}

/// The behaviour and rendering order of a tile layer
#[derive(Clone, Copy, Debug, PartialEq, Eq, Hash, Structural)]
pub enum TileLayerType {
    Foreground,
    Collision,
    Background,
}

impl Default for TileLayerType {
    fn default() -> (layer: Self)
        ensures
            layer == TileLayerType::Collision,
    {
        TileLayerType::Collision
    }
}

/// Extract a specific property from a collection of properties
pub fn get_property<'a>(name: &str, properties: &'a Option<TiledProperties>) -> (value: Option<
    &'a str,
>)
    ensures
        value matches Some(v) ==> property_value(*properties, name@) == Some(v@),
        value is None ==> property_value(*properties, name@) is None,
{
    if let Some(list) = properties {
        let n = list.properties.len();
        let mut i: usize = 0;
        assert(list.properties@.subrange(0, n as int) =~= list.properties@);
        while i < n
            invariant
                *properties == Some(*list),
                n == list.properties@.len(),
                i <= n,
                find_property(list.properties@, name@) == find_property(
                    list.properties@.subrange(i as int, n as int),
                    name@,
                ),
            decreases n - i,
        {
            let property = &list.properties[i];
            assert(list.properties@.subrange(i as int, n as int)[0] == *property);
            if str_eq(property.name.as_str(), name) {
                return Some(property.value.as_str());
            }
            assert(list.properties@.subrange(i as int, n as int).drop_first()
                =~= list.properties@.subrange(i + 1, n as int));
            i = i + 1;
        }
    }
    None
}

/// What a `collectable` property value parses to
pub open spec fn collectable_from(value: Option<Seq<char>>) -> Result<Option<Collectable>, Seq<char>> {
    match value {
        None => Ok(None),
        Some(v) => {
            let k = keyword(v);
            if k == "health"@ {
                Ok(Some(Collectable::Health))
            } else if k == "missile_tank"@ {
                Ok(Some(Collectable::MissileTank))
            } else if k == "ice_beam"@ {
                Ok(Some(Collectable::IceBeam))
            } else if k == "high_jump"@ {
                Ok(Some(Collectable::HighJump))
            } else if k == "none"@ {
                Err("Collectable must have a type"@)
            } else {
                Err("Invalid collectable type: "@ + k)
            }
        },
    }
}

/// Parse a tiled property into a Collectable
pub fn parse_collectable(properties: &Option<TiledProperties>) -> (parsed: Result<
    Option<Collectable>,
    String,
>)
    ensures
        err_view(parsed) == collectable_from(property_value(*properties, "collectable"@)),
{
    if let Some(prop) = get_property("collectable", properties) {
        let lower = to_lowercase(trim(prop));
        let k = lower.as_str();
        let collectable = if str_eq(k, "health") {
            Collectable::Health
        } else if str_eq(k, "missile_tank") {
            Collectable::MissileTank
        } else if str_eq(k, "ice_beam") {
            Collectable::IceBeam
        } else if str_eq(k, "high_jump") {
            Collectable::HighJump
        } else if str_eq(k, "none") {
            return Err(String::from_str("Collectable must have a type"));
        } else {
            return Err(message_with("Invalid collectable type: ", k));
        };
        return Ok(Some(collectable));
    }
    Ok(None)
}

/// What a `collision_layer` property value parses to
pub open spec fn collision_layer_from(value: Option<Seq<char>>) -> Result<RoomCollision, Seq<char>> {
    match value {
        None => Ok(RoomCollision::All),
        Some(v) => {
            let k = keyword(v);
            if k == "all"@ {
                Ok(RoomCollision::All)
            } else if k == "creature"@ {
                Ok(RoomCollision::Creature)
            } else if k == "player"@ {
                Ok(RoomCollision::Player)
            } else {
                Err("Invalid collision layer: "@ + k)
            }
        },
    }
}

/// Parse a tiled property into a RoomCollision
pub fn parse_collision_layer(properties: &Option<TiledProperties>) -> (parsed: Result<
    RoomCollision,
    String,
>)
    ensures
        err_view(parsed) == collision_layer_from(property_value(*properties, "collision_layer"@)),
{
    if let Some(prop) = get_property("collision_layer", properties) {
        let lower = to_lowercase(trim(prop));
        let k = lower.as_str();
        return if str_eq(k, "all") {
            Ok(RoomCollision::All)
        } else if str_eq(k, "creature") {
            Ok(RoomCollision::Creature)
        } else if str_eq(k, "player") {
            Ok(RoomCollision::Player)
        } else {
            Err(message_with("Invalid collision layer: ", k))
        };
    }
    Ok(RoomCollision::default())
}

/// What a `breakability` property value parses to
pub open spec fn breakability_from(value: Option<Seq<char>>) -> Result<TileBreakability, Seq<char>> {
    match value {
        None => Ok(TileBreakability::Solid),
        Some(v) => {
            let k = keyword(v);
            if k == "solid"@ {
                Ok(TileBreakability::Solid)
            } else if k == "strong"@ {
                Ok(TileBreakability::Strong)
            } else if k == "soft"@ {
                Ok(TileBreakability::Soft)
            } else if k == "brittle"@ {
                Ok(TileBreakability::Brittle)
            } else {
                Err("Invalid breakability: "@ + k)
            }
        },
    }
}

/// Parse a tiled property into a TileBreakability
pub fn parse_breakability(properties: &Option<TiledProperties>) -> (parsed: Result<
    TileBreakability,
    String,
>)
    ensures
        err_view(parsed) == breakability_from(property_value(*properties, "breakability"@)),
{
    let prop = get_property("breakability", properties);
    if let Some(prop) = prop {
        let lower = to_lowercase(trim(prop));
        let k = lower.as_str();
        return if str_eq(k, "solid") {
            Ok(TileBreakability::Solid)
        } else if str_eq(k, "strong") {
            Ok(TileBreakability::Strong)
        } else if str_eq(k, "soft") {
            Ok(TileBreakability::Soft)
        } else if str_eq(k, "brittle") {
            Ok(TileBreakability::Brittle)
        } else {
            Err(message_with("Invalid breakability: ", k))
        };
    }
    Ok(TileBreakability::default())
}

/// What a layer `type` property value parses to; the error quotes the raw value
pub open spec fn tilelayer_from(value: Option<Seq<char>>) -> Result<TileLayerType, Seq<char>> {
    match value {
        None => Ok(TileLayerType::Collision),
        Some(v) => {
            let k = keyword(v);
            if k == "foreground"@ {
                Ok(TileLayerType::Foreground)
            } else if k == "collision"@ {
                Ok(TileLayerType::Collision)
            } else if k == "background"@ {
                Ok(TileLayerType::Background)
            } else {
                Err("Invalid layer: "@ + v)
            }
        },
    }
}

/// Parse a tiled property into a TileLayerType
pub fn parse_tilelayer(properties: &Option<TiledProperties>) -> (parsed: Result<
    TileLayerType,
    String,
>)
    ensures
        err_view(parsed) == tilelayer_from(property_value(*properties, "type"@)),
{
    if let Some(prop) = get_property("type", properties) {
        let lower = to_lowercase(trim(prop));
        let k = lower.as_str();
        return if str_eq(k, "foreground") {
            Ok(TileLayerType::Foreground)
        } else if str_eq(k, "collision") {
            Ok(TileLayerType::Collision)
        } else if str_eq(k, "background") {
            Ok(TileLayerType::Background)
        } else {
            Err(message_with("Invalid layer: ", prop))
        };
    }
    Ok(TileLayerType::default())
}

/// Parse a compass direction property from a collection of properties
pub fn parse_compass_direction_type(property: &str, properties: &Option<TiledProperties>) -> (parsed:
    Result<CompassDirectionType, String>)
    ensures
        property_value(*properties, property@) is None ==> err_view(parsed) == Err::<
            CompassDirectionType,
            Seq<char>,
        >("Direction property not found"@),
        property_value(*properties, property@) matches Some(v) ==> {
            &&& parsed matches Ok(k) ==> CompassDirectionType::named(v) == Some(k)
            &&& parsed is Err <==> CompassDirectionType::named(v) is None
            &&& parsed matches Err(message) ==> message@ == "Invalid compass direction type: "@ + v
        },
{
    if let Some(prop) = get_property(property, properties) {
        let direction = CompassDirectionType::from_name(prop)?;
        return Ok(direction);
    }
    Err(String::from_str("Direction property not found"))
}

/// Parse a direction property from a collection of properties
pub fn parse_direction(properties: &Option<TiledProperties>) -> (parsed: Result<Direction, String>)
    ensures
        property_value(*properties, "direction"@) is None ==> err_view(parsed) == Err::<
            Direction,
            Seq<char>,
        >("Direction property not found"@),
        property_value(*properties, "direction"@) matches Some(v) ==> {
            &&& parsed matches Ok(d) ==> Direction::named(v) == Some(d)
            &&& parsed is Err <==> Direction::named(v) is None
            &&& parsed matches Err(message) ==> message@ == "Invalid direction: "@ + v
        },
{
    if let Some(prop) = get_property("direction", properties) {
        let direction = Direction::from_name(prop)?;
        return Ok(direction);
    }
    Err(String::from_str("Direction property not found"))
}

/// What a damage property value parses to
pub open spec fn damage_from(value: Option<Seq<char>>) -> Result<u32, Seq<char>> {
    match value {
        None => Ok(0),
        Some(v) => if is_u32_text(v) {
            Ok(digits_value(unsigned_digits(v)) as u32)
        } else {
            Err(u32_parse_error(v))
        },
    }
}

/// Parse a damage property from a collection of properties
pub fn parse_damage(property: &str, properties: &Option<TiledProperties>) -> (parsed: Result<
    u32,
    String,
>)
    ensures
        err_view(parsed) == damage_from(property_value(*properties, property@)),
{
    if let Some(prop) = get_property(property, properties) {
        let value = parse_u32(prop)?;
        return Ok(value);
    }
    Ok(0)
}

/// Metadata for a tilemap object; `P` is a position and `S` a side length, carried through
#[derive(Debug)]
pub enum ObjMeta<P, S> {
    AngryBuzzConcept { position: P },
    BubblyConcept { position: P, direction: Direction },
    BuzzConcept { position: P },
    StoryConcept { position: P, size: (S, S), key: String },
    GruntConcept { position: P },
    SaveAreaConcept { position: P, size: (S, S) },
    SpikyConcept { direction: Direction, position: P },
    SporeConcept { direction: Direction, position: P },
    RipperConcept { direction: Direction, position: P },
    RotundConcept { direction: Direction, position: P, spit_axis: CompassDirectionType },
    ZoomerConcept { direction: Direction, position: P },
}

/// Object metadata as plain values
pub enum ObjMetaView<P, S> {
    AngryBuzzConcept { position: P },
    BubblyConcept { position: P, direction: Direction },
    BuzzConcept { position: P },
    StoryConcept { position: P, size: (S, S), key: Seq<char> },
    GruntConcept { position: P },
    SaveAreaConcept { position: P, size: (S, S) },
    SpikyConcept { direction: Direction, position: P },
    SporeConcept { direction: Direction, position: P },
    RipperConcept { direction: Direction, position: P },
    RotundConcept { direction: Direction, position: P, spit_axis: CompassDirectionType },
    ZoomerConcept { direction: Direction, position: P },
}

impl<P, S> View for ObjMeta<P, S> {
    type V = ObjMetaView<P, S>;

    open spec fn view(&self) -> ObjMetaView<P, S> {
        match *self {
            ObjMeta::AngryBuzzConcept { position } => ObjMetaView::AngryBuzzConcept { position },
            ObjMeta::BubblyConcept { position, direction } => ObjMetaView::BubblyConcept {
                position,
                direction,
            },
            ObjMeta::BuzzConcept { position } => ObjMetaView::BuzzConcept { position },
            ObjMeta::StoryConcept { position, size, key } => ObjMetaView::StoryConcept {
                position,
                size,
                key: key@,
            },
            ObjMeta::GruntConcept { position } => ObjMetaView::GruntConcept { position },
            ObjMeta::SaveAreaConcept { position, size } => ObjMetaView::SaveAreaConcept {
                position,
                size,
            },
            ObjMeta::SpikyConcept { direction, position } => ObjMetaView::SpikyConcept {
                direction,
                position,
            },
            ObjMeta::SporeConcept { direction, position } => ObjMetaView::SporeConcept {
                direction,
                position,
            },
            ObjMeta::RipperConcept { direction, position } => ObjMetaView::RipperConcept {
                direction,
                position,
            },
            ObjMeta::RotundConcept { direction, position, spit_axis } => ObjMetaView::RotundConcept {
                direction,
                position,
                spit_axis,
            },
            ObjMeta::ZoomerConcept { direction, position } => ObjMetaView::ZoomerConcept {
                direction,
                position,
            },
        }
    }
}

/// The direction an object's `direction` property names, or `default` when it is missing or
/// names no direction
pub open spec fn direction_or(properties: Option<TiledProperties>, default: Direction) -> Direction {
    match property_value(properties, "direction"@) {
        Some(v) => match Direction::named(v) {
            Some(d) => d,
            None => default,
        },
        None => default,
    }
}

/// The compass direction type a property names, or `default`
pub open spec fn compass_or(
    properties: Option<TiledProperties>,
    property: Seq<char>,
    default: CompassDirectionType,
) -> CompassDirectionType {
    match property_value(properties, property) {
        Some(v) => match CompassDirectionType::named(v) {
            Some(k) => k,
            None => default,
        },
        None => default,
    }
}

/// The object metadata a Tiled object describes
pub open spec fn obj_meta_from<P, S>(object: TiledObject<P, S>) -> Result<ObjMetaView<P, S>, Seq<char>> {
    let position = object.position;
    let properties = object.properties;
    let kind = lowercased(trimmed(object.object_type@));
    if kind == "angrybuzz"@ {
        Ok(ObjMetaView::AngryBuzzConcept { position })
    } else if kind == "buzz"@ {
        Ok(ObjMetaView::BuzzConcept { position })
    } else if kind == "bubbly"@ {
        Ok(ObjMetaView::BubblyConcept { direction: direction_or(properties, Direction::UpRight), position })
    } else if kind == "grunt"@ {
        Ok(ObjMetaView::GruntConcept { position })
    } else if kind == "save"@ {
        match (object.width, object.height) {
            (Some(w), Some(h)) => Ok(ObjMetaView::SaveAreaConcept { position, size: (w, h) }),
            _ => Err("Save area must have a width and height"@),
        }
    } else if kind == "spore"@ {
        Ok(ObjMetaView::SporeConcept { direction: direction_or(properties, Direction::Up), position })
    } else if kind == "spiky"@ {
        Ok(ObjMetaView::SpikyConcept { direction: direction_or(properties, Direction::Right), position })
    } else if kind == "ripper"@ {
        Ok(ObjMetaView::RipperConcept { direction: direction_or(properties, Direction::Right), position })
    } else if kind == "rotund"@ {
        Ok(ObjMetaView::RotundConcept {
            direction: direction_or(properties, Direction::UpRight),
            position,
            spit_axis: compass_or(properties, "spit_axis"@, CompassDirectionType::Ordinal),
        })
    } else if kind == "zoomer"@ {
        Ok(ObjMetaView::ZoomerConcept { direction: direction_or(properties, Direction::Right), position })
    } else if kind == "story"@ {
        match object.name {
            Some(key) => match (object.width, object.height) {
                (Some(w), Some(h)) => Ok(ObjMetaView::StoryConcept { position, size: (w, h), key: key@ }),
                _ => Err("Save area must have a width and height"@),
            },
            None => Err("Story object must have a name"@),
        }
    } else {
        Err("Unknown object type: "@ + kind)
    }
}

/// The object metadata of an executable result, with messages by their views
pub open spec fn obj_result_view<P, S>(result: Result<ObjMeta<P, S>, String>) -> Result<ObjMetaView<P, S>, Seq<char>> {
    match result {
        Ok(meta) => Ok(meta@),
        Err(message) => Err(message@),
    }
}

/// Read the `direction` property, falling back to `default`
fn direction_or_default(properties: &Option<TiledProperties>, default: Direction) -> (direction: Direction)
    ensures
        direction == direction_or(*properties, default),
{
    match parse_direction(properties) {
        Ok(direction) => direction,
        Err(_) => default,
    }
}

/// Parse a TiledObject into an ObjMeta
pub fn parse_object<P: Copy, S: Copy>(object: &TiledObject<P, S>) -> (meta: Result<ObjMeta<P, S>, String>)
    ensures
        obj_result_view(meta) == obj_meta_from(*object),
{
    let position = object.position;
    let properties = &object.properties;
    let lower = to_lowercase(trim(object.object_type.as_str()));
    let kind = lower.as_str();
    let meta = if str_eq(kind, "angrybuzz") {
        ObjMeta::AngryBuzzConcept { position }
    } else if str_eq(kind, "buzz") {
        ObjMeta::BuzzConcept { position }
    } else if str_eq(kind, "bubbly") {
        let direction = direction_or_default(properties, Direction::UpRight);
        ObjMeta::BubblyConcept { direction, position }
    } else if str_eq(kind, "grunt") {
        ObjMeta::GruntConcept { position }
    } else if str_eq(kind, "save") {
        if let (Some(width), Some(height)) = (object.width, object.height) {
            return Ok(ObjMeta::SaveAreaConcept { position, size: (width, height) });
        }
        return Err(String::from_str("Save area must have a width and height"));
    } else if str_eq(kind, "spore") {
        let direction = direction_or_default(properties, Direction::Up);
        ObjMeta::SporeConcept { direction, position }
    } else if str_eq(kind, "spiky") {
        let direction = direction_or_default(properties, Direction::Right);
        ObjMeta::SpikyConcept { direction, position }
    } else if str_eq(kind, "ripper") {
        let direction = direction_or_default(properties, Direction::Right);
        ObjMeta::RipperConcept { direction, position }
    } else if str_eq(kind, "rotund") {
        let direction = direction_or_default(properties, Direction::UpRight);
        let spit_axis = match parse_compass_direction_type("spit_axis", properties) {
            Ok(axis) => axis,
            Err(_) => CompassDirectionType::Ordinal,
        };
        ObjMeta::RotundConcept { direction, position, spit_axis }
    } else if str_eq(kind, "zoomer") {
        let direction = direction_or_default(properties, Direction::Right);
        ObjMeta::ZoomerConcept { direction, position }
    } else if str_eq(kind, "story") {
        if let Some(key) = &object.name {
            if let (Some(width), Some(height)) = (object.width, object.height) {
                return Ok(ObjMeta::StoryConcept { position, size: (width, height), key: key.clone() });
            }
            return Err(String::from_str("Save area must have a width and height"));
        }
        return Err(String::from_str("Story object must have a name"));
    } else {
        return Err(message_with("Unknown object type: ", kind));
    };
    Ok(meta)
}

/// The metadata of every object of a layer, or the first error in object order
pub open spec fn objects_from<P, S>(objects: Seq<TiledObject<P, S>>) -> Result<Seq<ObjMetaView<P, S>>, Seq<char>>
    decreases objects.len(),
{
    if objects.len() == 0 {
        Ok(Seq::empty())
    } else {
        match objects_from(objects.drop_last()) {
            Err(e) => Err(e),
            Ok(metas) => match obj_meta_from(objects.last()) {
                Err(e) => Err(e),
                Ok(meta) => Ok(metas.push(meta)),
            },
        }
    }
}

/// Once a prefix of the objects fails to parse, every longer prefix fails with the same error
proof fn lemma_objects_error_persists<P, S>(objects: Seq<TiledObject<P, S>>, k: int)
    requires
        0 <= k <= objects.len(),
        objects_from(objects.take(k)) is Err,
    ensures
        objects_from(objects) == objects_from(objects.take(k)),
    decreases objects.len() - k,
{
    if k < objects.len() {
        assert(objects.take(k + 1).drop_last() =~= objects.take(k));
        lemma_objects_error_persists(objects, k + 1);
    } else {
        assert(objects.take(k) =~= objects);
    }
}

/// Parse every object of a Tiled object layer
pub fn tilemap_objects_from_tiled<P: Copy, S: Copy>(group: &TiledObjectGroup<P, S>) -> (metas: Result<
    Vec<ObjMeta<P, S>>,
    String,
>)
    ensures
        group.objects is None ==> (metas matches Ok(v) && v@.len() == 0),
        group.objects matches Some(objects) ==> match (metas, objects_from(objects@)) {
            (Ok(v), Ok(expected)) => v@.map_values(|m: ObjMeta<P, S>| m@) == expected,
            (Err(message), Err(expected)) => message@ == expected,
            _ => false,
        },
{
    if let Some(objects) = &group.objects {
        let mut metas: Vec<ObjMeta<P, S>> = Vec::new();
        let mut i: usize = 0;
        assert(objects@.take(0) =~= Seq::<TiledObject<P, S>>::empty());
        assert(metas@.map_values(|m: ObjMeta<P, S>| m@) =~= Seq::<ObjMetaView<P, S>>::empty());
        while i < objects.len()
            invariant
                group.objects == Some(*objects),
                i <= objects@.len(),
                objects_from(objects@.take(i as int)) == Ok::<Seq<ObjMetaView<P, S>>, Seq<char>>(
                    metas@.map_values(|m: ObjMeta<P, S>| m@),
                ),
            decreases objects.len() - i,
        {
            assert(objects@.take(i + 1).drop_last() =~= objects@.take(i as int));
            assert(objects@.take(i + 1).last() == objects@[i as int]);
            match parse_object(&objects[i]) {
                Ok(meta) => {
                    let ghost before = metas@.map_values(|m: ObjMeta<P, S>| m@);
                    metas.push(meta);
                    assert(metas@.map_values(|m: ObjMeta<P, S>| m@) =~= before.push(meta@));
                },
                Err(message) => {
                    proof {
                        lemma_objects_error_persists(objects@, i + 1);
                    }
                    return Err(message);
                },
            }
            i = i + 1;
        }
        assert(objects@.take(objects.len() as int) =~= objects@);
        return Ok(metas);
    }
    Ok(Vec::new())
}

/// Each layer keyword names the layer type of the same name, whatever its surrounding space and
/// case; a layer without a type is a collision layer; any other keyword is refused
pub proof fn lemma_layer_keywords(value: Seq<char>)
    ensures
        keyword(value) == "foreground"@ ==> tilelayer_from(Some(value)) == Ok::<
            TileLayerType,
            Seq<char>,
        >(TileLayerType::Foreground),
        keyword(value) == "collision"@ ==> tilelayer_from(Some(value)) == Ok::<
            TileLayerType,
            Seq<char>,
        >(TileLayerType::Collision),
        keyword(value) == "background"@ ==> tilelayer_from(Some(value)) == Ok::<
            TileLayerType,
            Seq<char>,
        >(TileLayerType::Background),
        tilelayer_from(None) == Ok::<TileLayerType, Seq<char>>(TileLayerType::Collision),
        tilelayer_from(Some(value)) is Err <==> (keyword(value) != "foreground"@ && keyword(value)
            != "collision"@ && keyword(value) != "background"@),
{
    reveal_strlit("foreground");
    reveal_strlit("collision");
    reveal_strlit("background");
    assert("collision"@.len() != "foreground"@.len());
    assert("background"@[0] != "foreground"@[0]);
    assert("background"@.len() != "collision"@.len());
}

/// Each breakability keyword names the breakability of the same name; a tile without one is
/// solid; any other keyword is refused
pub proof fn lemma_breakability_keywords(value: Seq<char>)
    ensures
        keyword(value) == "solid"@ ==> breakability_from(Some(value)) == Ok::<
            TileBreakability,
            Seq<char>,
        >(TileBreakability::Solid),
        keyword(value) == "strong"@ ==> breakability_from(Some(value)) == Ok::<
            TileBreakability,
            Seq<char>,
        >(TileBreakability::Strong),
        keyword(value) == "soft"@ ==> breakability_from(Some(value)) == Ok::<
            TileBreakability,
            Seq<char>,
        >(TileBreakability::Soft),
        keyword(value) == "brittle"@ ==> breakability_from(Some(value)) == Ok::<
            TileBreakability,
            Seq<char>,
        >(TileBreakability::Brittle),
        breakability_from(None) == Ok::<TileBreakability, Seq<char>>(TileBreakability::Solid),
        breakability_from(Some(value)) is Err <==> (keyword(value) != "solid"@ && keyword(value)
            != "strong"@ && keyword(value) != "soft"@ && keyword(value) != "brittle"@),
{
    reveal_strlit("solid");
    reveal_strlit("strong");
    reveal_strlit("soft");
    reveal_strlit("brittle");
    assert("strong"@.len() != "solid"@.len());
    assert("soft"@.len() != "solid"@.len());
    assert("soft"@.len() != "strong"@.len());
    assert("brittle"@.len() != "solid"@.len());
    assert("brittle"@.len() != "strong"@.len());
    assert("brittle"@.len() != "soft"@.len());
}

/// Each collectable keyword names the collectable of the same name; `none` and any other
/// keyword are refused; a tile without one holds no collectable
pub proof fn lemma_collectable_keywords(value: Seq<char>)
    ensures
        keyword(value) == "health"@ ==> collectable_from(Some(value)) == Ok::<
            Option<Collectable>,
            Seq<char>,
        >(Some(Collectable::Health)),
        keyword(value) == "missile_tank"@ ==> collectable_from(Some(value)) == Ok::<
            Option<Collectable>,
            Seq<char>,
        >(Some(Collectable::MissileTank)),
        keyword(value) == "ice_beam"@ ==> collectable_from(Some(value)) == Ok::<
            Option<Collectable>,
            Seq<char>,
        >(Some(Collectable::IceBeam)),
        keyword(value) == "high_jump"@ ==> collectable_from(Some(value)) == Ok::<
            Option<Collectable>,
            Seq<char>,
        >(Some(Collectable::HighJump)),
        keyword(value) == "none"@ ==> collectable_from(Some(value)) == Err::<
            Option<Collectable>,
            Seq<char>,
        >("Collectable must have a type"@),
        collectable_from(None) == Ok::<Option<Collectable>, Seq<char>>(None),
        collectable_from(Some(value)) is Err <==> (keyword(value) != "health"@ && keyword(value)
            != "missile_tank"@ && keyword(value) != "ice_beam"@ && keyword(value)
            != "high_jump"@),
{
    reveal_strlit("health");
    reveal_strlit("missile_tank");
    reveal_strlit("ice_beam");
    reveal_strlit("high_jump");
    reveal_strlit("none");
    assert("missile_tank"@.len() != "health"@.len());
    assert("ice_beam"@.len() != "health"@.len());
    assert("ice_beam"@.len() != "missile_tank"@.len());
    assert("high_jump"@.len() != "health"@.len());
    assert("high_jump"@.len() != "missile_tank"@.len());
    assert("high_jump"@.len() != "ice_beam"@.len());
    assert("none"@.len() != "health"@.len());
    assert("none"@.len() != "missile_tank"@.len());
    assert("none"@.len() != "ice_beam"@.len());
    assert("none"@.len() != "high_jump"@.len());
}

/// Each collision layer keyword names the layer of the same name; a tile without one collides
/// with everything; any other keyword is refused
pub proof fn lemma_collision_layer_keywords(value: Seq<char>)
    ensures
        keyword(value) == "all"@ ==> collision_layer_from(Some(value)) == Ok::<
            RoomCollision,
            Seq<char>,
        >(RoomCollision::All),
        keyword(value) == "creature"@ ==> collision_layer_from(Some(value)) == Ok::<
            RoomCollision,
            Seq<char>,
        >(RoomCollision::Creature),
        keyword(value) == "player"@ ==> collision_layer_from(Some(value)) == Ok::<
            RoomCollision,
            Seq<char>,
        >(RoomCollision::Player),
        collision_layer_from(None) == Ok::<RoomCollision, Seq<char>>(RoomCollision::All),
        collision_layer_from(Some(value)) is Err <==> (keyword(value) != "all"@ && keyword(value)
            != "creature"@ && keyword(value) != "player"@),
{
    reveal_strlit("all");
    reveal_strlit("creature");
    reveal_strlit("player");
    assert("creature"@.len() != "all"@.len());
    assert("player"@.len() != "all"@.len());
    assert("player"@.len() != "creature"@.len());
}

/// Whether an object's `direction` property names the direction `direction`
pub open spec fn names_direction(properties: Option<TiledProperties>, direction: Direction) -> bool {
    property_value(properties, "direction"@) matches Some(v) && Direction::named(v) == Some(
        direction,
    )
}

/// Whether an object's `direction` property is missing or names no direction
pub open spec fn no_direction(properties: Option<TiledProperties>) -> bool {
    match property_value(properties, "direction"@) {
        None => true,
        Some(v) => Direction::named(v) is None,
    }
}

/// A creature object that carries a direction takes the direction its `direction` property
/// names, at the object's position
pub proof fn lemma_object_takes_named_direction<P, S>(object: TiledObject<P, S>, direction: Direction)
    requires
        names_direction(object.properties, direction),
    ensures
        keyword(object.object_type@) == "bubbly"@ ==> obj_meta_from(object) == Ok::<
            ObjMetaView<P, S>,
            Seq<char>,
        >(ObjMetaView::BubblyConcept { position: object.position, direction }),
        keyword(object.object_type@) == "spore"@ ==> obj_meta_from(object) == Ok::<
            ObjMetaView<P, S>,
            Seq<char>,
        >(ObjMetaView::SporeConcept { direction, position: object.position }),
        keyword(object.object_type@) == "spiky"@ ==> obj_meta_from(object) == Ok::<
            ObjMetaView<P, S>,
            Seq<char>,
        >(ObjMetaView::SpikyConcept { direction, position: object.position }),
        keyword(object.object_type@) == "ripper"@ ==> obj_meta_from(object) == Ok::<
            ObjMetaView<P, S>,
            Seq<char>,
        >(ObjMetaView::RipperConcept { direction, position: object.position }),
        keyword(object.object_type@) == "zoomer"@ ==> obj_meta_from(object) == Ok::<
            ObjMetaView<P, S>,
            Seq<char>,
        >(ObjMetaView::ZoomerConcept { direction, position: object.position }),
        keyword(object.object_type@) == "rotund"@ ==> obj_meta_from(object) == Ok::<
            ObjMetaView<P, S>,
            Seq<char>,
        >(
            ObjMetaView::RotundConcept {
                direction,
                position: object.position,
                spit_axis: compass_or(object.properties, "spit_axis"@, CompassDirectionType::Ordinal),
            },
        ),
{
    reveal_strlit("bubbly");
    reveal_strlit("spore");
    reveal_strlit("spiky");
    reveal_strlit("ripper");
    reveal_strlit("zoomer");
    reveal_strlit("rotund");
    reveal_strlit("angrybuzz");
    reveal_strlit("buzz");
    reveal_strlit("grunt");
    reveal_strlit("save");
    assert("bubbly"@.len() != "angrybuzz"@.len());
    assert("bubbly"@.len() != "buzz"@.len());
    assert("spore"@.len() != "angrybuzz"@.len());
    assert("spore"@.len() != "buzz"@.len());
    assert("spore"@.len() != "bubbly"@.len());
    assert("spore"@[0] != "grunt"@[0]);
    assert("spore"@[1] != "save"@[1]);
    assert("spiky"@.len() != "angrybuzz"@.len());
    assert("spiky"@.len() != "buzz"@.len());
    assert("spiky"@.len() != "bubbly"@.len());
    assert("spiky"@[0] != "grunt"@[0]);
    assert("spiky"@[1] != "save"@[1]);
    assert("spiky"@[2] != "spore"@[2]);
    assert("ripper"@.len() != "angrybuzz"@.len());
    assert("ripper"@.len() != "buzz"@.len());
    assert("ripper"@[0] != "bubbly"@[0]);
    assert("ripper"@.len() != "grunt"@.len());
    assert("ripper"@.len() != "save"@.len());
    assert("ripper"@.len() != "spore"@.len());
    assert("ripper"@.len() != "spiky"@.len());
    assert("rotund"@.len() != "angrybuzz"@.len());
    assert("rotund"@.len() != "buzz"@.len());
    assert("rotund"@[0] != "bubbly"@[0]);
    assert("rotund"@.len() != "grunt"@.len());
    assert("rotund"@.len() != "save"@.len());
    assert("rotund"@.len() != "spore"@.len());
    assert("rotund"@.len() != "spiky"@.len());
    assert("rotund"@[1] != "ripper"@[1]);
    assert("zoomer"@.len() != "angrybuzz"@.len());
    assert("zoomer"@.len() != "buzz"@.len());
    assert("zoomer"@[0] != "bubbly"@[0]);
    assert("zoomer"@.len() != "grunt"@.len());
    assert("zoomer"@.len() != "save"@.len());
    assert("zoomer"@.len() != "spore"@.len());
    assert("zoomer"@.len() != "spiky"@.len());
    assert("zoomer"@[0] != "ripper"@[0]);
    assert("zoomer"@[0] != "rotund"@[0]);
}

/// A creature object whose `direction` property is missing or names no direction faces its
/// kind's default: bubbly and rotund up and to the right, spore up, spiky, ripper and zoomer
/// right
pub proof fn lemma_object_default_direction<P, S>(object: TiledObject<P, S>)
    requires
        no_direction(object.properties),
    ensures
        keyword(object.object_type@) == "bubbly"@ ==> obj_meta_from(object) == Ok::<
            ObjMetaView<P, S>,
            Seq<char>,
        >(ObjMetaView::BubblyConcept { position: object.position, direction: Direction::UpRight }),
        keyword(object.object_type@) == "spore"@ ==> obj_meta_from(object) == Ok::<
            ObjMetaView<P, S>,
            Seq<char>,
        >(ObjMetaView::SporeConcept { direction: Direction::Up, position: object.position }),
        keyword(object.object_type@) == "spiky"@ ==> obj_meta_from(object) == Ok::<
            ObjMetaView<P, S>,
            Seq<char>,
        >(ObjMetaView::SpikyConcept { direction: Direction::Right, position: object.position }),
        keyword(object.object_type@) == "ripper"@ ==> obj_meta_from(object) == Ok::<
            ObjMetaView<P, S>,
            Seq<char>,
        >(ObjMetaView::RipperConcept { direction: Direction::Right, position: object.position }),
        keyword(object.object_type@) == "zoomer"@ ==> obj_meta_from(object) == Ok::<
            ObjMetaView<P, S>,
            Seq<char>,
        >(ObjMetaView::ZoomerConcept { direction: Direction::Right, position: object.position }),
        keyword(object.object_type@) == "rotund"@ ==> obj_meta_from(object) == Ok::<
            ObjMetaView<P, S>,
            Seq<char>,
        >(
            ObjMetaView::RotundConcept {
                direction: Direction::UpRight,
                position: object.position,
                spit_axis: compass_or(object.properties, "spit_axis"@, CompassDirectionType::Ordinal),
            },
        ),
{
    reveal_strlit("bubbly");
    reveal_strlit("spore");
    reveal_strlit("spiky");
    reveal_strlit("ripper");
    reveal_strlit("zoomer");
    reveal_strlit("rotund");
    reveal_strlit("angrybuzz");
    reveal_strlit("buzz");
    reveal_strlit("grunt");
    reveal_strlit("save");
    assert("bubbly"@.len() != "angrybuzz"@.len());
    assert("bubbly"@.len() != "buzz"@.len());
    assert("spore"@.len() != "angrybuzz"@.len());
    assert("spore"@.len() != "buzz"@.len());
    assert("spore"@.len() != "bubbly"@.len());
    assert("spore"@[0] != "grunt"@[0]);
    assert("spore"@[1] != "save"@[1]);
    assert("spiky"@.len() != "angrybuzz"@.len());
    assert("spiky"@.len() != "buzz"@.len());
    assert("spiky"@.len() != "bubbly"@.len());
    assert("spiky"@[0] != "grunt"@[0]);
    assert("spiky"@[1] != "save"@[1]);
    assert("spiky"@[2] != "spore"@[2]);
    assert("ripper"@.len() != "angrybuzz"@.len());
    assert("ripper"@.len() != "buzz"@.len());
    assert("ripper"@[0] != "bubbly"@[0]);
    assert("ripper"@.len() != "grunt"@.len());
    assert("ripper"@.len() != "save"@.len());
    assert("ripper"@.len() != "spore"@.len());
    assert("ripper"@.len() != "spiky"@.len());
    assert("rotund"@.len() != "angrybuzz"@.len());
    assert("rotund"@.len() != "buzz"@.len());
    assert("rotund"@[0] != "bubbly"@[0]);
    assert("rotund"@.len() != "grunt"@.len());
    assert("rotund"@.len() != "save"@.len());
    assert("rotund"@.len() != "spore"@.len());
    assert("rotund"@.len() != "spiky"@.len());
    assert("rotund"@[1] != "ripper"@[1]);
    assert("zoomer"@.len() != "angrybuzz"@.len());
    assert("zoomer"@.len() != "buzz"@.len());
    assert("zoomer"@[0] != "bubbly"@[0]);
    assert("zoomer"@.len() != "grunt"@.len());
    assert("zoomer"@.len() != "save"@.len());
    assert("zoomer"@.len() != "spore"@.len());
    assert("zoomer"@.len() != "spiky"@.len());
    assert("zoomer"@[0] != "ripper"@[0]);
    assert("zoomer"@[0] != "rotund"@[0]);
}

} // verus!
