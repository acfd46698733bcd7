//! Room exceptions carried into the room registry, where rooms lie in the world, and the choice
//! of the room to enter
use vstd::prelude::*;

use crate::game::scene::level::room::meta::{Item, MapIndex, TileLayerType};
use crate::game::scene::level::room::room::{RoomTileException, first_exception};
use crate::game::scene::level::transition::RoomKey;
use crate::game::utility::path::{get_basename, get_filename, path_file_name, stem_of};
use crate::game::utility::text::str_eq;

verus! {

/// The indices listed for `room` in `entries` of rooms and tile indices, in their order
pub open spec fn room_indices(entries: Seq<(Seq<char>, MapIndex)>, room: Seq<char>) -> Seq<MapIndex>
    decreases entries.len(),
{
    if entries.len() == 0 {
        Seq::empty()
    } else {
        let rest = room_indices(entries.drop_last(), room);
        if entries.last().0 == room {
            rest.push(entries.last().1)
        } else {
            rest
        }
    }
}

/// The entries of `entries` that belong to another room than `room`, in their order
pub open spec fn other_rooms(entries: Seq<(Seq<char>, MapIndex)>, room: Seq<char>) -> Seq<
    (Seq<char>, MapIndex),
>
    decreases entries.len(),
{
    if entries.len() == 0 {
        Seq::empty()
    } else {
        let rest = other_rooms(entries.drop_last(), room);
        if entries.last().0 == room {
            rest
        } else {
            rest.push(entries.last())
        }
    }
}

/// The room and tile index each collected item was found at
pub open spec fn inventory_entries(inventory: Seq<Item>) -> Seq<(Seq<char>, MapIndex)> {
    inventory.map_values(|item: Item| (item.room_name@, item.map_index))
}

/// Whether an exception removes the collision tile at `index`
pub open spec fn removes_collision_tile(exception: RoomTileException, index: MapIndex) -> bool {
    &&& exception.index() == index
    &&& exception.layer() == TileLayerType::Collision
    &&& exception.key() is None
}

/// The tile exceptions of each room, kept until its room is built: each removes a collision
/// tile, listed under the room it belongs to
pub struct RoomRegistryTileExceptions {
    entries: Vec<(RoomKey, RoomTileException)>,
}

impl View for RoomRegistryTileExceptions {
    type V = Seq<(Seq<char>, MapIndex)>;

    closed spec fn view(&self) -> Seq<(Seq<char>, MapIndex)> {
        self.entries@.map_values(|entry: (RoomKey, RoomTileException)| (entry.0@, entry.1.index()))
    }
}

impl RoomRegistryTileExceptions {
    /// Every exception held removes a collision tile
    #[verifier::type_invariant]
    closed spec fn removals_only(self) -> bool {
        forall|i: int|
            0 <= i < self.entries@.len() ==> removes_collision_tile(
                #[trigger] self.entries@[i].1,
                self.entries@[i].1.index(),
            )
    }

    /// The exceptions for the rooms of a player's inventory: the collision tile of every
    /// collected item is removed from the room it was found in
    pub fn from_inventory(inventory: &Vec<Item>) -> (exceptions: Self)
        ensures
            exceptions@ == inventory_entries(inventory@),
    {
        let mut entries: Vec<(RoomKey, RoomTileException)> = Vec::new();
        let mut i: usize = 0;
        while i < inventory.len()
            invariant
                i <= inventory@.len(),
                entries@.map_values(|entry: (RoomKey, RoomTileException)| (entry.0@, entry.1.index()))
                    == inventory_entries(inventory@.take(i as int)),
                forall|j: int|
                    0 <= j < entries@.len() ==> removes_collision_tile(
                        #[trigger] entries@[j].1,
                        entries@[j].1.index(),
                    ),
            decreases inventory.len() - i,
        {
            let item = &inventory[i];
            let exception = RoomTileException::new(item.map_index, TileLayerType::Collision, None);
            let ghost before = entries@;
            entries.push((item.room_name.clone(), exception));
            assert(inventory_entries(inventory@.take(i + 1)) =~= inventory_entries(
                inventory@.take(i as int),
            ).push((item.room_name@, item.map_index)));
            assert(entries@.map_values(|entry: (RoomKey, RoomTileException)| (entry.0@, entry.1.index()))
                =~= before.map_values(
                |entry: (RoomKey, RoomTileException)| (entry.0@, entry.1.index()),
            ).push((item.room_name@, item.map_index)));
            i = i + 1;
        }
        assert(inventory@.take(inventory@.len() as int) =~= inventory@);
        RoomRegistryTileExceptions { entries }
    }

    /// Take the exceptions of `room` out, in the order they were listed; a room with none gets
    /// an empty list
    pub fn take(&mut self, room: &str) -> (taken: Vec<RoomTileException>)
        ensures
            taken@.len() == room_indices(old(self)@, room@).len(),
            forall|i: int|
                0 <= i < taken@.len() ==> removes_collision_tile(
                    #[trigger] taken@[i],
                    room_indices(old(self)@, room@)[i],
                ),
            final(self)@ == other_rooms(old(self)@, room@),
    {
        proof {
            use_type_invariant(&*self);
        }
        let ghost all = self@;
        let mut entries: Vec<(RoomKey, RoomTileException)> = Vec::new();
        std::mem::swap(&mut entries, &mut self.entries);
        let mut kept: Vec<(RoomKey, RoomTileException)> = Vec::new();
        let mut taken: Vec<RoomTileException> = Vec::new();
        let mut i: usize = 0;
        while i < entries.len()
            invariant
                i <= entries@.len(),
                all == entries@.map_values(
                    |entry: (RoomKey, RoomTileException)| (entry.0@, entry.1.index()),
                ),
                forall|j: int|
                    0 <= j < entries@.len() ==> removes_collision_tile(
                        #[trigger] entries@[j].1,
                        entries@[j].1.index(),
                    ),
                kept@.map_values(|entry: (RoomKey, RoomTileException)| (entry.0@, entry.1.index()))
                    == other_rooms(all.take(i as int), room@),
                forall|j: int|
                    0 <= j < kept@.len() ==> removes_collision_tile(
                        #[trigger] kept@[j].1,
                        kept@[j].1.index(),
                    ),
                taken@.len() == room_indices(all.take(i as int), room@).len(),
                forall|j: int|
                    0 <= j < taken@.len() ==> removes_collision_tile(
                        #[trigger] taken@[j],
                        room_indices(all.take(i as int), room@)[j],
                    ),
            decreases entries.len() - i,
        {
            let entry = &entries[i];
            assert(all.take(i + 1) =~= all.take(i as int).push(all[i as int]));
            assert(all.take(i + 1).drop_last() =~= all.take(i as int));
            let ghost kept_before = kept@;
            if str_eq(entry.0.as_str(), room) {
                taken.push(entry.1);
            } else {
                kept.push((entry.0.clone(), entry.1));
                assert(kept@.map_values(
                    |entry: (RoomKey, RoomTileException)| (entry.0@, entry.1.index()),
                ) =~= other_rooms(all.take(i as int), room@).push(all[i as int])) by {
                    assert(kept@ =~= kept_before.push(kept@.last()));
                }
            }
            i = i + 1;
        }
        assert(all.take(entries@.len() as int) =~= all);
        self.entries = kept;
        taken
    }
}

/// Taking the exceptions of a room leaves none for it, and leaves those of every other room as
/// they were
pub proof fn lemma_take_exceptions(entries: Seq<(Seq<char>, MapIndex)>, room: Seq<char>, other: Seq<char>)
    requires
        room != other,
    ensures
        room_indices(other_rooms(entries, room), room) == Seq::<MapIndex>::empty(),
        room_indices(other_rooms(entries, room), other) == room_indices(entries, other),
    decreases entries.len(),
{
    if entries.len() > 0 {
        lemma_take_exceptions(entries.drop_last(), room, other);
        let rest = other_rooms(entries.drop_last(), room);
        if entries.last().0 != room {
            assert(rest.push(entries.last()).drop_last() =~= rest);
        }
    }
}

/// An index listed for a room in the entries is among the indices of that room
proof fn lemma_room_indices_contain(entries: Seq<(Seq<char>, MapIndex)>, room: Seq<char>, index: MapIndex)
    requires
        entries.contains((room, index)),
    ensures
        room_indices(entries, room).contains(index),
    decreases entries.len(),
{
    if entries.last() == (room, index) {
        assert(room_indices(entries, room).last() == index);
    } else {
        let j = choose|j: int| 0 <= j < entries.len() && entries[j] == (room, index);
        assert(entries.drop_last()[j] == (room, index));
        lemma_room_indices_contain(entries.drop_last(), room, index);
        let rest = room_indices(entries.drop_last(), room);
        let k = choose|k: int| 0 <= k < rest.len() && rest[k] == index;
        if entries.last().0 == room {
            assert(rest.push(entries.last().1)[k] == index);
        }
    }
}

/// In exceptions that only remove collision tiles, the first exception for a collision tile
/// that one of them removes exists and removes it
proof fn lemma_first_removal(exceptions: Seq<RoomTileException>, index: MapIndex, at: int)
    requires
        0 <= at < exceptions.len(),
        exceptions[at].index() == index,
        exceptions[at].layer() == TileLayerType::Collision,
        forall|i: int| 0 <= i < exceptions.len() ==> (#[trigger] exceptions[i]).key() is None,
    ensures
        first_exception(exceptions, TileLayerType::Collision, index) matches Some(exception)
            && exception.key() is None,
    decreases exceptions.len(),
{
    if !exceptions[0].applies_to(TileLayerType::Collision, index) {
        let rest = exceptions.drop_first();
        assert(rest[at - 1] == exceptions[at]);
        assert forall|i: int| 0 <= i < rest.len() implies (#[trigger] rest[i]).key() is None by {
            assert(rest[i] == exceptions[i + 1]);
        }
        lemma_first_removal(rest, index, at - 1);
    }
}

/// A tile collected by the player stays removed: once the exceptions of its room are taken,
/// the collision tile of every item collected in that room is overridden by an exception that
/// removes it
pub proof fn lemma_collected_tiles_stay_removed(
    entries: Seq<(Seq<char>, MapIndex)>,
    room: Seq<char>,
    index: MapIndex,
    taken: Seq<RoomTileException>,
)
    requires
        entries.contains((room, index)),
        taken.len() == room_indices(entries, room).len(),
        forall|i: int|
            0 <= i < taken.len() ==> removes_collision_tile(
                #[trigger] taken[i],
                room_indices(entries, room)[i],
            ),
    ensures
        first_exception(taken, TileLayerType::Collision, index) matches Some(exception)
            && exception.key() is None,
{
    lemma_room_indices_contain(entries, room, index);
    let indices = room_indices(entries, room);
    let at = choose|at: int| 0 <= at < indices.len() && indices[at] == index;
    assert(removes_collision_tile(taken[at], indices[at]));
    assert forall|i: int| 0 <= i < taken.len() implies (#[trigger] taken[i]).key() is None by {
        assert(removes_collision_tile(taken[i], indices[i]));
    }
    lemma_first_removal(taken, index, at);
}

/// Choose the room to enter from the rooms the player collides with: none when there is none,
/// the room when there is exactly one, and an error when there are several
pub fn pick_room_collision(collisions: Vec<RoomKey>) -> (picked: Result<Option<RoomKey>, String>)
    ensures
        collisions@.len() == 0 ==> picked == Ok::<Option<RoomKey>, String>(None),
        collisions@.len() == 1 ==> (picked matches Ok(Some(room)) && room@ == collisions@[0]@),
        collisions@.len() > 1 ==> (picked matches Err(message) && message@
            == "Multiple room collisions"@),
{
    if collisions.len() == 0 {
        return Ok(None);
    }
    if collisions.len() > 1 {
        return Err(String::from_str("Multiple room collisions"));
    }
    let mut collisions = collisions;
    Ok(collisions.pop())
}

/// A map placed in a Tiled world: the file of the tilemap and where the room lies, in pixels
pub struct TiledWorldMap {
    pub file_name: String,
    pub x: i32,
    pub y: i32,
}

/// The first map of `maps` placed for the tilemap file `file_name`
pub open spec fn find_world_map(maps: Seq<TiledWorldMap>, file_name: Seq<char>) -> Option<TiledWorldMap>
    decreases maps.len(),
{
    if maps.len() == 0 {
        None
    } else if maps[0].file_name@ == file_name {
        Some(maps[0])
    } else {
        find_world_map(maps.drop_first(), file_name)
    }
}

/// Where the room of the tilemap at `tilemap_path` lies in the world: the position of the
/// first map placed for the tilemap's file
pub fn world_map_position(maps: &Vec<TiledWorldMap>, tilemap_path: &str) -> (position: Result<
    (i32, i32),
    String,
>)
    ensures
        match path_file_name(tilemap_path@) {
            None => position matches Err(message) && message@ == "Failed to get basename"@,
            Some(name) => match find_world_map(maps@, name) {
                Some(map) => position == Ok::<(i32, i32), String>((map.x, map.y)),
                None => position matches Err(message) && message@ == "Tilemap not found"@,
            },
        },
{
    let file = match get_basename(tilemap_path) {
        Ok(file) => file,
        Err(message) => {
            return Err(message);
        },
    };
    assert(path_file_name(tilemap_path@) == Some(file@));
    let mut i: usize = 0;
    assert(maps@.skip(0) =~= maps@);
    while i < maps.len()
        invariant
            i <= maps@.len(),
            path_file_name(tilemap_path@) == Some(file@),
            find_world_map(maps@, file@) == find_world_map(maps@.skip(i as int), file@),
        decreases maps.len() - i,
    {
        assert(maps@.skip(i as int)[0] == maps@[i as int]);
        assert(maps@.skip(i as int).drop_first() =~= maps@.skip(i + 1));
        if str_eq(maps[i].file_name.as_str(), file.as_str()) {
            assert(find_world_map(maps@.skip(i as int), file@) == Some(maps@[i as int]));
            return Ok((maps[i].x, maps[i].y));
        }
        i = i + 1;
    }
    Err(String::from_str("Tilemap not found"))
}

/// The texts of a list of strings
pub open spec fn texts_of(list: Seq<String>) -> Seq<Seq<char>> {
    list.map_values(|text: String| text@)
}

/// The tilemaps of a registry as plain values: each tilemap's path and the sources of the
/// tilesets it references, in order
pub open spec fn tilemaps_of(tilemaps: Seq<(String, Vec<String>)>) -> Seq<(Seq<char>, Seq<Seq<char>>)> {
    tilemaps.map_values(|tilemap: (String, Vec<String>)| (tilemap.0@, texts_of(tilemap.1@)))
}

/// The rooms of a plan as plain values
pub open spec fn plan_view(plan: Result<Vec<(String, (i32, i32))>, String>) -> Result<
    Seq<(Seq<char>, (i32, i32))>,
    Seq<char>,
> {
    match plan {
        Ok(rooms) => Ok(rooms@.map_values(|room: (String, (i32, i32))| (room.0@, room.1))),
        Err(message) => Err(message@),
    }
}

/// The names of the tilesets, the stems of their paths, or the failure for the first path
/// without a file name
pub open spec fn tileset_names_of(paths: Seq<Seq<char>>) -> Result<Seq<Seq<char>>, Seq<char>>
    decreases paths.len(),
{
    if paths.len() == 0 {
        Ok(Seq::empty())
    } else {
        match tileset_names_of(paths.drop_last()) {
            Err(message) => Err(message),
            Ok(names) => match path_file_name(paths.last()) {
                Some(name) => Ok(names.push(stem_of(name))),
                None => Err("Failed to get filename"@),
            },
        }
    }
}

/// The room a tilemap at `path` becomes, given the sources of the tilesets it references: its
/// first tileset must be among the tilesets `names`, and the world must place its file. The room
/// is named by the stem of the tilemap's file.
pub open spec fn room_plan_of(
    path: Seq<char>,
    references: Seq<Seq<char>>,
    names: Seq<Seq<char>>,
    maps: Seq<TiledWorldMap>,
) -> Result<(Seq<char>, (i32, i32)), Seq<char>> {
    if references.len() == 0 {
        Err("No tileset found"@)
    } else {
        match path_file_name(references[0]) {
            None => Err("Failed to get filename"@),
            Some(tileset_file) => if !names.contains(stem_of(tileset_file)) {
                Err("Tileset not found"@)
            } else {
                match path_file_name(path) {
                    None => Err("Failed to get basename"@),
                    Some(file) => match find_world_map(maps, file) {
                        None => Err("Tilemap not found"@),
                        Some(map) => Ok((stem_of(file), (map.x, map.y))),
                    },
                }
            },
        }
    }
}

/// The rooms of the tilemaps, in order, or the failure of the first tilemap that fails
pub open spec fn rooms_plan_of(
    tilemaps: Seq<(Seq<char>, Seq<Seq<char>>)>,
    names: Seq<Seq<char>>,
    maps: Seq<TiledWorldMap>,
) -> Result<Seq<(Seq<char>, (i32, i32))>, Seq<char>>
    decreases tilemaps.len(),
{
    if tilemaps.len() == 0 {
        Ok(Seq::empty())
    } else {
        match rooms_plan_of(tilemaps.drop_last(), names, maps) {
            Err(message) => Err(message),
            Ok(rooms) => match room_plan_of(tilemaps.last().0, tilemaps.last().1, names, maps) {
                Err(message) => Err(message),
                Ok(room) => Ok(rooms.push(room)),
            },
        }
    }
}

/// Whether two of the names differ
pub open spec fn names_differ(names: Seq<Seq<char>>) -> bool {
    exists|i: int, j: int| 0 <= i < names.len() && 0 <= j < names.len() && names[i] != names[j]
}

/// The rooms a registry is built with: every tileset must have a file name, every tilemap must
/// become a room, and all tilesets must be one tileset
pub open spec fn registry_plan_of(
    tilemaps: Seq<(Seq<char>, Seq<Seq<char>>)>,
    tilesets: Seq<Seq<char>>,
    maps: Seq<TiledWorldMap>,
) -> Result<Seq<(Seq<char>, (i32, i32))>, Seq<char>> {
    match tileset_names_of(tilesets) {
        Err(message) => Err(message),
        Ok(names) => match rooms_plan_of(tilemaps, names, maps) {
            Err(message) => Err(message),
            Ok(rooms) => if names_differ(names) {
                Err("Multiple tilesets found; can't store a single tileset in the register"@)
            } else {
                Ok(rooms)
            },
        },
    }
}

/// Whether `name` is among `names`
fn contains_name(names: &Vec<String>, name: &str) -> (found: bool)
    ensures
        found == texts_of(names@).contains(name@),
{
    let mut i: usize = 0;
    while i < names.len()
        invariant
            i <= names@.len(),
            forall|j: int| 0 <= j < i ==> names@[j]@ != name@,
        decreases names.len() - i,
    {
        if str_eq(names[i].as_str(), name) {
            assert(texts_of(names@)[i as int] == name@);
            return true;
        }
        i = i + 1;
    }
    assert forall|j: int| 0 <= j < texts_of(names@).len() implies texts_of(names@)[j] != name@ by {
        assert(texts_of(names@)[j] == names@[j]@);
    }
    false
}

/// Plan the rooms of the registry from the Tiled files: the tilesets by their paths, each
/// tilemap by its path and the sources of the tilesets it references, and the maps the world
/// places. Each tileset is named by the stem of its file; each tilemap's first tileset must be
/// one of them; each tilemap becomes a room named by the stem of its file, at the position the
/// world gives its file; and the registry holds a single tileset.
pub fn plan_registry(
    tilemaps: &Vec<(String, Vec<String>)>,
    tilesets: &Vec<String>,
    maps: &Vec<TiledWorldMap>,
) -> (plan: Result<Vec<(String, (i32, i32))>, String>)
    ensures
        plan_view(plan) == registry_plan_of(tilemaps_of(tilemaps@), texts_of(tilesets@), maps@),
{
    let ghost paths = texts_of(tilesets@);
    let mut names: Vec<String> = Vec::new();
    let mut i: usize = 0;
    assert(paths.take(0) =~= Seq::<Seq<char>>::empty());
    assert(texts_of(names@) =~= Seq::<Seq<char>>::empty());
    while i < tilesets.len()
        invariant
            i <= tilesets@.len(),
            paths == texts_of(tilesets@),
            tileset_names_of(paths.take(i as int)) == Ok::<Seq<Seq<char>>, Seq<char>>(
                texts_of(names@),
            ),
        decreases tilesets.len() - i,
    {
        assert(paths.take(i + 1).drop_last() =~= paths.take(i as int));
        assert(paths.take(i + 1).last() == tilesets@[i as int]@);
        match get_filename(tilesets[i].as_str()) {
            Ok(name) => {
                let ghost before = names@;
                names.push(name);
                assert(texts_of(names@) =~= texts_of(before).push(names@.last()@));
            },
            Err(message) => {
                proof {
                    lemma_tileset_names_fail(paths, i as int + 1);
                }
                return Err(message);
            },
        }
        i = i + 1;
    }
    assert(paths.take(tilesets@.len() as int) =~= paths);
    let ghost all_names = texts_of(names@);
    let ghost plain = tilemaps_of(tilemaps@);
    let mut rooms: Vec<(String, (i32, i32))> = Vec::new();
    let mut k: usize = 0;
    assert(plain.take(0) =~= Seq::<(Seq<char>, Seq<Seq<char>>)>::empty());
    assert(rooms@.map_values(|room: (String, (i32, i32))| (room.0@, room.1)) =~= Seq::<
        (Seq<char>, (i32, i32)),
    >::empty());
    while k < tilemaps.len()
        invariant
            k <= tilemaps@.len(),
            plain == tilemaps_of(tilemaps@),
            all_names == texts_of(names@),
            tileset_names_of(paths) == Ok::<Seq<Seq<char>>, Seq<char>>(all_names),
            paths == texts_of(tilesets@),
            rooms_plan_of(plain.take(k as int), all_names, maps@) == Ok::<
                Seq<(Seq<char>, (i32, i32))>,
                Seq<char>,
            >(rooms@.map_values(|room: (String, (i32, i32))| (room.0@, room.1))),
        decreases tilemaps.len() - k,
    {
        assert(plain.take(k + 1).drop_last() =~= plain.take(k as int));
        assert(plain.take(k + 1).last() == plain[k as int]);
        let tilemap = &tilemaps[k];
        assert(plain[k as int] == (tilemap.0@, texts_of(tilemap.1@)));
        let room = plan_room(&tilemap.0, &tilemap.1, &names, maps);
        match room {
            Ok(room) => {
                let ghost before = rooms@;
                rooms.push(room);
                assert(rooms@.map_values(|room: (String, (i32, i32))| (room.0@, room.1))
                    =~= before.map_values(|room: (String, (i32, i32))| (room.0@, room.1)).push(
                    (rooms@.last().0@, rooms@.last().1),
                ));
            },
            Err(message) => {
                proof {
                    lemma_rooms_plan_fail(plain, all_names, maps@, k as int + 1);
                }
                return Err(message);
            },
        }
        k = k + 1;
    }
    assert(plain.take(tilemaps@.len() as int) =~= plain);
    let mut j: usize = 0;
    while j < names.len()
        invariant
            j <= names@.len(),
            all_names == texts_of(names@),
            forall|m: int| 0 <= m < j ==> #[trigger] all_names[m] == all_names[0],
            plain == tilemaps_of(tilemaps@),
            paths == texts_of(tilesets@),
            tileset_names_of(paths) == Ok::<Seq<Seq<char>>, Seq<char>>(all_names),
            rooms_plan_of(plain, all_names, maps@) is Ok,
        decreases names.len() - j,
    {
        if !str_eq(names[j].as_str(), names[0].as_str()) {
            assert(all_names[j as int] != all_names[0]);
            assert(names_differ(all_names));
            return Err(
                String::from_str(
                    "Multiple tilesets found; can't store a single tileset in the register",
                ),
            );
        }
        j = j + 1;
    }
    assert(!names_differ(all_names)) by {
        assert forall|a: int, b: int|
            0 <= a < all_names.len() && 0 <= b < all_names.len() implies all_names[a]
            == all_names[b] by {
            assert(all_names[a] == all_names[0]);
            assert(all_names[b] == all_names[0]);
        }
    }
    Ok(rooms)
}

/// Plan the room of one tilemap
fn plan_room(
    path: &String,
    references: &Vec<String>,
    names: &Vec<String>,
    maps: &Vec<TiledWorldMap>,
) -> (room: Result<(String, (i32, i32)), String>)
    ensures
        match room {
            Ok(r) => room_plan_of(path@, texts_of(references@), texts_of(names@), maps@) == Ok::<
                (Seq<char>, (i32, i32)),
                Seq<char>,
            >((r.0@, r.1)),
            Err(message) => room_plan_of(path@, texts_of(references@), texts_of(names@), maps@)
                == Err::<(Seq<char>, (i32, i32)), Seq<char>>(message@),
        },
{
    if references.len() == 0 {
        return Err(String::from_str("No tileset found"));
    }
    assert(texts_of(references@)[0] == references@[0]@);
    let tileset_name = match get_filename(references[0].as_str()) {
        Ok(name) => name,
        Err(message) => {
            return Err(message);
        },
    };
    if !contains_name(names, tileset_name.as_str()) {
        return Err(String::from_str("Tileset not found"));
    }
    let position = match world_map_position(maps, path.as_str()) {
        Ok(position) => position,
        Err(message) => {
            return Err(message);
        },
    };
    match get_filename(path.as_str()) {
        Ok(name) => Ok((name, position)),
        Err(message) => Err(message),
    }
}

/// A failure of the tileset at `count - 1` is the failure of all the tilesets, once those
/// before it have names
proof fn lemma_tileset_names_fail(paths: Seq<Seq<char>>, count: int)
    requires
        0 < count <= paths.len(),
        tileset_names_of(paths.take(count)) is Err,
    ensures
        tileset_names_of(paths) == tileset_names_of(paths.take(count)),
    decreases paths.len(),
{
    if count < paths.len() {
        assert(paths.drop_last().take(count) =~= paths.take(count));
        lemma_tileset_names_fail(paths.drop_last(), count);
    } else {
        assert(paths.take(count) =~= paths);
    }
}

/// A failure of the tilemap at `count - 1` is the failure of all the tilemaps, once those
/// before it have rooms
proof fn lemma_rooms_plan_fail(
    tilemaps: Seq<(Seq<char>, Seq<Seq<char>>)>,
    names: Seq<Seq<char>>,
    maps: Seq<TiledWorldMap>,
    count: int,
)
    requires
        0 < count <= tilemaps.len(),
        rooms_plan_of(tilemaps.take(count), names, maps) is Err,
    ensures
        rooms_plan_of(tilemaps, names, maps) == rooms_plan_of(tilemaps.take(count), names, maps),
    decreases tilemaps.len(),
{
    if count < tilemaps.len() {
        assert(tilemaps.drop_last().take(count) =~= tilemaps.take(count));
        lemma_rooms_plan_fail(tilemaps.drop_last(), names, maps, count);
    } else {
        assert(tilemaps.take(count) =~= tilemaps);
    }
}

/// Whether `room` is named by the stem of the file of the tilemap at `path` and lies where the
/// world places that file
pub open spec fn planned_room(path: Seq<char>, room: (Seq<char>, (i32, i32)), maps: Seq<TiledWorldMap>) -> bool {
    &&& path_file_name(path) is Some
    &&& room.0 == stem_of(path_file_name(path).unwrap())
    &&& find_world_map(maps, path_file_name(path).unwrap()) is Some
    &&& find_world_map(maps, path_file_name(path).unwrap()).unwrap().x == room.1.0
    &&& find_world_map(maps, path_file_name(path).unwrap()).unwrap().y == room.1.1
}

/// A plan that succeeds has one room for each tilemap, in order, named by the stem of the
/// tilemap's file and placed where the world places that file
pub proof fn lemma_rooms_plan_rooms(
    tilemaps: Seq<(Seq<char>, Seq<Seq<char>>)>,
    names: Seq<Seq<char>>,
    maps: Seq<TiledWorldMap>,
)
    ensures
        rooms_plan_of(tilemaps, names, maps) matches Ok(rooms) ==> {
            &&& rooms.len() == tilemaps.len()
            &&& forall|i: int| 0 <= i < rooms.len() ==> #[trigger] planned_room(tilemaps[i].0, rooms[i], maps)
        },
    decreases tilemaps.len(),
{
    if tilemaps.len() > 0 {
        lemma_rooms_plan_rooms(tilemaps.drop_last(), names, maps);
        if let Ok(rooms) = rooms_plan_of(tilemaps, names, maps) {
            let rest = rooms_plan_of(tilemaps.drop_last(), names, maps)->Ok_0;
            assert(rooms == rest.push(rooms.last()));
            assert forall|i: int| 0 <= i < rooms.len() implies #[trigger] planned_room(tilemaps[i].0, rooms[i], maps) by {
                if i < rooms.len() - 1 {
                    assert(rooms[i] == rest[i]);
                    assert(tilemaps[i] == tilemaps.drop_last()[i]);
                }
            }
        }
    }
}

} // verus!
