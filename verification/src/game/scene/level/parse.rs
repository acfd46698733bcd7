//! Build tile metadata and tile keys from Tiled data structures.
use std::collections::HashMap;

use vstd::prelude::*;

use crate::game::scene::level::room::meta::{
    TileMeta,
    TILED_TILE_CLASS,
    breakability_from,
    collectable_from,
    collision_layer_from,
    damage_from,
    parse_breakability,
    parse_collectable,
    parse_collision_layer,
    parse_damage,
};
use crate::game::scene::level::tile::tiled::{TiledTile, TiledTileset, property_value};
use crate::game::utility::text::{
    decimal_text,
    digits_value,
    is_u32_text,
    message_with,
    parse_u32,
    push_decimal,
    split_char,
    split_pieces,
    str_eq,
    strip_newlines,
    text_result,
    trim,
    trimmed,
    unsigned_digits,
    without_newlines,
};
use crate::game::utility::path::{get_parent, join_path, path_joined, path_parent};

verus! {

/// A key identifying a tile of a tileset
pub type TileKey = u32;

/// Delimiter for tile data in Tiled .tmx files
pub const DELIMITER: char = ',';

/// Integer key for 'no tile' in Tiled .tmx files
pub const NULL_TILE: TileKey = 0;

/// Integer offset for tile keys read from Tiled .tmx files
pub const NULL_TILE_OFFSET: TileKey = 1;

/// The message for a tile whose class is not the tile class
pub open spec fn invalid_tile_message(tile: TiledTile) -> Seq<char> {
    "Invalid tile type: "@ + tile.tile_type@ + ", for tile: "@ + decimal_text(tile.id as nat)
}

/// The metadata of one tileset tile, or the first error met while reading it
pub open spec fn tile_meta_from(tile: TiledTile) -> Result<TileMeta, Seq<char>> {
    if tile.tile_type@ != "Tile"@ {
        Err(invalid_tile_message(tile))
    } else {
        match breakability_from(property_value(tile.properties, "breakability"@)) {
            Err(e) => Err(e),
            Ok(breakability) => match collectable_from(
                property_value(tile.properties, "collectable"@),
            ) {
                Err(e) => Err(e),
                Ok(collectable) => match collision_layer_from(
                    property_value(tile.properties, "collision_layer"@),
                ) {
                    Err(e) => Err(e),
                    Ok(collision_layer) => match damage_from(
                        property_value(tile.properties, "damage"@),
                    ) {
                        Err(e) => Err(e),
                        Ok(damage) => Ok(
                            TileMeta { breakability, collectable, collision_layer, damage },
                        ),
                    },
                },
            },
        }
    }
}

/// The metadata of all tiles, keyed by tile id, or the first error in tile order
pub open spec fn tileset_meta_from(tiles: Seq<TiledTile>) -> Result<Map<TileKey, TileMeta>, Seq<char>>
    decreases tiles.len(),
{
    if tiles.len() == 0 {
        Ok(Map::empty())
    } else {
        match tileset_meta_from(tiles.drop_last()) {
            Err(e) => Err(e),
            Ok(meta) => match tile_meta_from(tiles.last()) {
                Err(e) => Err(e),
                Ok(tile_meta) => Ok(meta.insert(tiles.last().id, tile_meta)),
            },
        }
    }
}

/// Whether an executable result agrees with its specification
pub open spec fn agrees<T, U>(result: Result<T, String>, expected: Result<U, Seq<char>>, view: spec_fn(T) -> U) -> bool {
    match (result, expected) {
        (Ok(value), Ok(spec_value)) => view(value) == spec_value,
        (Err(message), Err(spec_message)) => message@ == spec_message,
        _ => false,
    }
}

/// Read the metadata of one tileset tile
fn tile_meta_from_tiled(tile: &TiledTile) -> (meta: Result<TileMeta, String>)
    ensures
        agrees(meta, tile_meta_from(*tile), |m: TileMeta| m),
{
    if !str_eq(tile.tile_type.as_str(), TILED_TILE_CLASS) {
        let mut message = message_with("Invalid tile type: ", tile.tile_type.as_str());
        message.append(", for tile: ");
        push_decimal(&mut message, tile.id as u64);
        return Err(message);
    }
    let breakability = parse_breakability(&tile.properties)?;
    let collectable = parse_collectable(&tile.properties)?;
    let collision_layer = parse_collision_layer(&tile.properties)?;
    let damage = parse_damage("damage", &tile.properties)?;
    Ok(TileMeta { breakability, collectable, damage, collision_layer })
}

/// Build the metadata of every tile of a Tiled tileset
pub fn tileset_meta_from_tiled(tiled_tileset: &TiledTileset) -> (meta: Result<
    HashMap<TileKey, TileMeta>,
    String,
>)
    ensures
        agrees(meta, tileset_meta_from(tiled_tileset.tiles@), |m: HashMap<TileKey, TileMeta>| m@),
{
    broadcast use vstd::std_specs::hash::group_hash_axioms;

    let mut meta: HashMap<TileKey, TileMeta> = HashMap::new();
    let n = tiled_tileset.tiles.len();
    let mut i: usize = 0;
    assert(tiled_tileset.tiles@.take(0) =~= Seq::<TiledTile>::empty());
    while i < n
        invariant
            n == tiled_tileset.tiles@.len(),
            i <= n,
            tileset_meta_from(tiled_tileset.tiles@.take(i as int)) == Ok::<
                Map<TileKey, TileMeta>,
                Seq<char>,
            >(meta@),
        decreases n - i,
    {
        let tile = &tiled_tileset.tiles[i];
        assert(tiled_tileset.tiles@.take(i + 1).drop_last() =~= tiled_tileset.tiles@.take(i as int));
        assert(tiled_tileset.tiles@.take(i + 1).last() == *tile);
        let tile_meta = match tile_meta_from_tiled(tile) {
            Ok(tile_meta) => tile_meta,
            Err(message) => {
                proof {
                    lemma_tileset_meta_error_persists(tiled_tileset.tiles@, i as int + 1);
                }
                return Err(message);
            },
        };
        meta.insert(tile.id, tile_meta);
        i = i + 1;
    }
    assert(tiled_tileset.tiles@.take(n as int) =~= tiled_tileset.tiles@);
    Ok(meta)
}

/// Once a prefix of the tiles fails to read, every longer prefix fails with the same error
proof fn lemma_tileset_meta_error_persists(tiles: Seq<TiledTile>, k: int)
    requires
        0 <= k <= tiles.len(),
        tileset_meta_from(tiles.take(k)) is Err,
    ensures
        tileset_meta_from(tiles) == tileset_meta_from(tiles.take(k)),
    decreases tiles.len() - k,
{
    if k < tiles.len() {
        assert(tiles.take(k + 1).drop_last() =~= tiles.take(k));
        lemma_tileset_meta_error_persists(tiles, k + 1);
    } else {
        assert(tiles.take(k) =~= tiles);
    }
}

/// The tile key a cell of Tiled tile data stands for: its number less one, or nothing for 0
/// and for text that is not a number
pub open spec fn tile_key_from(cell: Seq<char>) -> Option<TileKey> {
    let text = trimmed(without_newlines(cell));
    if is_u32_text(text) && digits_value(unsigned_digits(text)) != 0 {
        Some((digits_value(unsigned_digits(text)) - 1) as TileKey)
    } else {
        None
    }
}

/// Parse a tile key from a cell of Tiled tile data
fn parse_tile_key(key: &str) -> (tile: Option<TileKey>)
    ensures
        tile == tile_key_from(key@),
{
    let stripped = strip_newlines(key);
    let key = match parse_u32(trim(stripped.as_str())) {
        Ok(value) => value,
        Err(_) => NULL_TILE,
    };
    if key == NULL_TILE {
        None
    } else {
        // 0 is reserved for 'no tile' in .tmx files, so the key is offset by 1
        Some(key - NULL_TILE_OFFSET)
    }
}

/// Convert csv tile data into a vector of tile keys
pub fn make_tile_keys(raw_data: &String, delimiter: &char) -> (keys: Vec<Option<TileKey>>)
    ensures
        keys@ == split_pieces(raw_data@, *delimiter).map_values(|cell: Seq<char>| tile_key_from(cell)),
{
    let cells = split_char(raw_data.as_str(), *delimiter);
    let ghost views = cells@.map_values(|c: String| c@);
    let mut keys: Vec<Option<TileKey>> = Vec::new();
    let mut i: usize = 0;
    while i < cells.len()
        invariant
            views == cells@.map_values(|c: String| c@),
            views == split_pieces(raw_data@, *delimiter),
            i <= cells.len(),
            keys@ == views.take(i as int).map_values(|cell: Seq<char>| tile_key_from(cell)),
        decreases cells.len() - i,
    {
        let key = parse_tile_key(cells[i].as_str());
        keys.push(key);
        assert(views.take(i + 1) =~= views.take(i as int).push(views[i as int]));
        assert(keys@ =~= views.take(i + 1).map_values(|cell: Seq<char>| tile_key_from(cell)));
        i = i + 1;
    }
    assert(views.take(cells.len() as int) =~= views);
    keys
}

/// The path of the image of a tileset, which lies beside the tileset file at `tileset_path`:
/// the image source joined onto the directory of the tileset
pub fn tileset_texture_path(tileset_path: &str, tiled_tileset: &TiledTileset) -> (path: Result<
    String,
    String,
>)
    ensures
        text_result(path) == match path_parent(tileset_path@) {
            Some(directory) => Ok(path_joined(directory, tiled_tileset.image.source@)),
            None => Err("Failed to get tileset directory"@),
        },
{
    match get_parent(tileset_path) {
        Ok(directory) => Ok(join_path(directory.as_str(), tiled_tileset.image.source.as_str())),
        Err(_) => Err(String::from_str("Failed to get tileset directory")),
    }
}

/// The flag of a Tiled tilemap that marks it infinite
pub const INFINITE_TILEMAP: u8 = 1;

/// Check that a Tiled tilemap is finite: infinite maps are not supported
pub fn check_finite_tilemap(infinite: u8) -> (checked: Result<(), String>)
    ensures
        checked is Ok <==> infinite != INFINITE_TILEMAP,
        checked matches Err(message) ==> message@ == "Infinite maps are not supported."@,
{
    if infinite == INFINITE_TILEMAP {
        return Err(String::from_str("Infinite maps are not supported."));
    }
    Ok(())
}

} // verus!
