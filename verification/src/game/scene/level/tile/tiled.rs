use vstd::prelude::*;

verus! {

/// A custom property of a Tiled tile, layer or object
pub struct TiledProperty {
    pub name: String,
    pub value: String,
}

/// The custom properties of a Tiled tile, layer or object
pub struct TiledProperties {
    pub properties: Vec<TiledProperty>,
}

/// A tile of a Tiled tileset with its class and custom properties
pub struct TiledTile {
    pub id: u32,
    pub tile_type: String,
    pub properties: Option<TiledProperties>,
}

/// The source image of a Tiled tileset
pub struct TiledImage {
    pub source: String,
    pub width: u32,
    pub height: u32,
}

/// A Tiled tileset: its tiles' metadata and the image they are cut from
pub struct TiledTileset {
    pub tile_width: u32,
    pub tile_height: u32,
    pub image: TiledImage,
    pub tiles: Vec<TiledTile>,
}

/// A tile layer of a Tiled tilemap; `data` holds the tile keys as comma separated text
pub struct TiledTileLayer {
    pub width_tiles: u32,
    pub height_tiles: u32,
    pub properties: Option<TiledProperties>,
    pub data: String,
}

/// An object of a Tiled object layer; `P` is its position and `S` a side length, both carried
/// through as they are
pub struct TiledObject<P, S> {
    pub name: Option<String>,
    pub object_type: String,
    pub properties: Option<TiledProperties>,
    pub position: P,
    pub width: Option<S>,
    pub height: Option<S>,
}

/// An object layer of a Tiled tilemap
pub struct TiledObjectGroup<P, S> {
    pub objects: Option<Vec<TiledObject<P, S>>>,
}

/// The value of the first property called `name` among `properties`
pub open spec fn find_property(properties: Seq<TiledProperty>, name: Seq<char>) -> Option<
    Seq<char>,
>
    decreases properties.len(),
{
    if properties.len() == 0 {
        None
    } else if properties[0].name@ == name {
        Some(properties[0].value@)
    } else {
        find_property(properties.drop_first(), name)
    }
}

/// The value of the first property called `name`, if there are properties at all
pub open spec fn property_value(properties: Option<TiledProperties>, name: Seq<char>) -> Option<
    Seq<char>,
> {
    match properties {
        Some(p) => find_property(p.properties@, name),
        None => None,
    }
}

} // verus!
