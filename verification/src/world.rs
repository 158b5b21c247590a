//! World data: NPC kinds and states, time of day, zone bounds and tile maps.

use crate::engine::{Rect, TextureHandle};
use vstd::prelude::*;

verus! {

/// Kind of NPC: decides behaviour, look and dialog.
#[derive(Debug, Clone, Copy, PartialEq, Eq, Structural)]
pub enum NpcType {
    Pedestrian,
    Shopkeeper,
    GangMember,
}

/// The NPC type a zone file names: "shopkeeper", "gang_member", anything
/// else is a pedestrian.
pub open spec fn npc_type_named(s: Seq<char>) -> NpcType {
    if s == "shopkeeper"@ {
        NpcType::Shopkeeper
    } else if s == "gang_member"@ {
        NpcType::GangMember
    } else {
        NpcType::Pedestrian
    }
}

impl NpcType {
    /// Reads an NPC type name; unknown names give a pedestrian.
    pub fn from_str(s: &str) -> (t: NpcType)
        ensures
            t == npc_type_named(s@),
    {
        let name: String = s.to_owned();
        let shopkeeper: String = "shopkeeper".to_owned();
        let gang_member: String = "gang_member".to_owned();
        if name == shopkeeper {
            NpcType::Shopkeeper
        } else if name == gang_member {
            NpcType::GangMember
        } else {
            NpcType::Pedestrian
        }
    }
}

/// What an NPC is doing.
#[derive(Debug, Clone, Copy, PartialEq, Eq, Structural)]
pub enum NpcState {
    Idle,
    Walk,
    Flee,
    Panic,
    Talk,
}

/// Display name of a `NpcState`.
pub open spec fn npc_state_label(x: NpcState) -> Seq<char> {
    match x {
        NpcState::Idle => "Idle"@,
        NpcState::Walk => "Walk"@,
        NpcState::Flee => "Flee"@,
        NpcState::Panic => "Panic"@,
        NpcState::Talk => "Talk"@,
    }
}

impl NpcState {
    pub fn label(&self) -> (s: &'static str)
        ensures
            s@ == npc_state_label(*self),
    {
        match self {
            NpcState::Idle => "Idle",
            NpcState::Walk => "Walk",
            NpcState::Flee => "Flee",
            NpcState::Panic => "Panic",
            NpcState::Talk => "Talk",
        }
    }
}
/// Part of the day.
#[derive(Debug, Clone, Copy, PartialEq, Eq, Structural, Hash)]
pub enum TimeOfDay {
    /// 5:00 - 8:00
    Dawn,
    /// 8:00 - 12:00
    Morning,
    /// 12:00 - 17:00
    Afternoon,
    /// 17:00 - 21:00
    Evening,
    /// 21:00 - 5:00
    Night,
}

/// The time of day at hour `hour` of the clock (whole hours, taken modulo
/// 24): dawn from 5, morning from 8, afternoon from 12, evening from 17,
/// night from 21 until 5.
pub open spec fn time_of_day_at(hour: int) -> TimeOfDay {
    let h = hour % 24;
    if 5 <= h < 8 {
        TimeOfDay::Dawn
    } else if 8 <= h < 12 {
        TimeOfDay::Morning
    } else if 12 <= h < 17 {
        TimeOfDay::Afternoon
    } else if 17 <= h < 21 {
        TimeOfDay::Evening
    } else {
        TimeOfDay::Night
    }
}

impl TimeOfDay {
    /// The time of day at whole hour `hour` (the whole part of the clock's
    /// hour; the clock wraps every 24 hours).
    pub fn from_hour(hour: u32) -> (t: TimeOfDay)
        ensures
            t == time_of_day_at(hour as int),
    {
        let h = hour % 24;
        if 5 <= h && h < 8 {
            TimeOfDay::Dawn
        } else if 8 <= h && h < 12 {
            TimeOfDay::Morning
        } else if 12 <= h && h < 17 {
            TimeOfDay::Afternoon
        } else if 17 <= h && h < 21 {
            TimeOfDay::Evening
        } else {
            TimeOfDay::Night
        }
    }
}

/// Display name of a `TimeOfDay`.
pub open spec fn time_of_day_label(x: TimeOfDay) -> Seq<char> {
    match x {
        TimeOfDay::Dawn => "Dawn"@,
        TimeOfDay::Morning => "Morning"@,
        TimeOfDay::Afternoon => "Afternoon"@,
        TimeOfDay::Evening => "Evening"@,
        TimeOfDay::Night => "Night"@,
    }
}

impl TimeOfDay {
    pub fn label(&self) -> (s: &'static str)
        ensures
            s@ == time_of_day_label(*self),
    {
        match self {
            TimeOfDay::Dawn => "Dawn",
            TimeOfDay::Morning => "Morning",
            TimeOfDay::Afternoon => "Afternoon",
            TimeOfDay::Evening => "Evening",
            TimeOfDay::Night => "Night",
        }
    }
}
impl TimeOfDay {
    /// Night and dawn count as night (more crime, fewer civilians).
    pub fn is_night(&self) -> (b: bool)
        ensures
            b == (*self == TimeOfDay::Night || *self == TimeOfDay::Dawn),
    {
        match self {
            TimeOfDay::Night | TimeOfDay::Dawn => true,
            _ => false,
        }
    }
}

/// A zone's bounds in world coordinates.
#[derive(Debug, Clone, Copy)]
pub struct ZoneBounds {
    pub x: i32,
    pub y: i32,
    pub w: i32,
    pub h: i32,
}

impl ZoneBounds {
    /// The same bounds as a `Rect`.
    pub fn to_rect(&self) -> (r: Rect)
        ensures
            r.x == self.x,
            r.y == self.y,
            r.w == self.w,
            r.h == self.h,
    {
        Rect::new(self.x, self.y, self.w, self.h)
    }
}

/// Tile map data: tile ids in row-major order (`y * width + x`).
#[derive(Debug)]
pub struct TilemapDef {
    pub width: usize,
    pub height: usize,
    pub tiles: Vec<String>,
}

impl TilemapDef {
    /// The tile id at (x, y); `None` outside the map or past the tile list.
    pub fn tile_at(&self, x: usize, y: usize) -> (r: Option<&String>)
        requires
            x < self.width && y < self.height ==> y * self.width + x <= usize::MAX,
        ensures
            !(x < self.width && y < self.height) ==> r is None,
            x < self.width && y < self.height ==> {
                &&& y * self.width + x < self.tiles@.len() ==> r == Some(&self.tiles@[y * self.width + x])
                &&& y * self.width + x >= self.tiles@.len() ==> r is None
            },
    {
        if x < self.width && y < self.height {
            proof {
                assert(y * self.width <= y * self.width + x);
            }
            let idx = y * self.width + x;
            if idx < self.tiles.len() {
                Some(&self.tiles[idx])
            } else {
                None
            }
        } else {
            None
        }
    }
}

/// A tile type as defined in the tile data: whether it blocks movement and
/// the layer it is drawn on.
#[derive(Debug, Clone)]
pub struct TileDef {
    pub id: String,
    pub solid: bool,
    pub layer: i32,
}

/// A tile type at run time: its definition and, once loaded, its texture.
#[derive(Debug, Clone)]
pub struct TileType {
    pub def: TileDef,
    pub texture: Option<TextureHandle>,
}

/// The tile types by id. Inserting under an id that is already present
/// replaces its type.
#[derive(Debug, Clone)]
pub struct TileRegistry {
    entries: Vec<(String, TileType)>,
}

/// The map that a sequence of insertions builds: later ones win.
pub open spec fn registry_map(entries: Seq<(String, TileType)>) -> Map<Seq<char>, TileType>
    decreases entries.len(),
{
    if entries.len() == 0 {
        Map::empty()
    } else {
        registry_map(entries.drop_last()).insert(entries.last().0@, entries.last().1)
    }
}

impl View for TileRegistry {
    type V = Map<Seq<char>, TileType>;

    closed spec fn view(&self) -> Map<Seq<char>, TileType> {
        registry_map(self.entries@)
    }
}

/// Entries past `i` that do not insert `k` do not change what `k` maps to.
proof fn lemma_registry_skip(entries: Seq<(String, TileType)>, i: int, k: Seq<char>)
    requires
        0 <= i <= entries.len(),
        forall|j: int| i <= j < entries.len() ==> (#[trigger] entries[j]).0@ != k,
    ensures
        registry_map(entries).contains_key(k) == registry_map(entries.take(i)).contains_key(k),
        registry_map(entries).contains_key(k) ==> registry_map(entries)[k] == registry_map(
            entries.take(i),
        )[k],
    decreases entries.len() - i,
{
    if i == entries.len() {
        assert(entries.take(i) =~= entries);
    } else {
        let rest = entries.drop_last();
        assert(entries.last() == entries[entries.len() - 1]);
        assert forall|j: int| i <= j < rest.len() implies (#[trigger] rest[j]).0@ != k by {
            assert(rest[j] == entries[j]);
        }
        lemma_registry_skip(rest, i, k);
        assert(rest.take(i) =~= entries.take(i));
    }
}

impl Default for TileRegistry {
    fn default() -> (r: TileRegistry)
        ensures
            r@ == Map::<Seq<char>, TileType>::empty(),
    {
        TileRegistry::new()
    }
}

impl TileRegistry {
    pub fn new() -> (r: TileRegistry)
        ensures
            r@ == Map::<Seq<char>, TileType>::empty(),
    {
        TileRegistry { entries: Vec::new() }
    }

    /// Registers `tile` under `id`, replacing any type already there.
    pub fn insert(&mut self, id: String, tile: TileType)
        ensures
            final(self)@ == old(self)@.insert(id@, tile),
    {
        let ghost before = self.entries@;
        self.entries.push((id, tile));
        assert(self.entries@.drop_last() =~= before);
    }

    /// The tile type registered under `id`.
    pub fn get(&self, id: &str) -> (r: Option<&TileType>)
        ensures
            r == (if self@.contains_key(id@) { Some(&self@[id@]) } else { None }),
    {
        let key: String = id.to_owned();
        let mut i: usize = self.entries.len();
        while i > 0
            invariant
                0 <= i <= self.entries@.len(),
                key@ == id@,
                forall|j: int| i <= j < self.entries@.len() ==> (#[trigger] self.entries@[j]).0@ != id@,
            decreases i,
        {
            i = i - 1;
            if self.entries[i].0 == key {
                proof {
                    let upto = self.entries@.take(i as int + 1);
                    assert forall|j: int| i + 1 <= j < self.entries@.len() implies (
                    #[trigger] self.entries@[j]).0@ != id@ by {}
                    lemma_registry_skip(self.entries@, i as int + 1, id@);
                    assert(upto.drop_last() =~= self.entries@.take(i as int));
                    assert(upto.last() == self.entries@[i as int]);
                }
                return Some(&self.entries[i].1);
            }
        }
        proof {
            lemma_registry_skip(self.entries@, 0, id@);
            assert(self.entries@.take(0).len() == 0);
        }
        None
    }

    /// Whether the tile type under `id` blocks movement; an unknown id does
    /// not.
    pub fn is_solid(&self, id: &str) -> (b: bool)
        ensures
            b == (self@.contains_key(id@) && self@[id@].def.solid),
    {
        match self.get(id) {
            Some(t) => t.def.solid,
            None => false,
        }
    }
}

/// Whether the cell (x, y) blocks movement: every cell outside the map
/// does (the world is enclosed), as does a cell past the end of the tile
/// list; a cell inside blocks when its tile type is solid.
pub open spec fn solid_at(map: TilemapDef, x: int, y: int, tiles: Map<Seq<char>, TileType>) -> bool {
    if x < 0 || y < 0 || x >= map.width || y >= map.height {
        true
    } else if y * map.width + x < map.tiles@.len() {
        let id = map.tiles@[y * map.width + x]@;
        tiles.contains_key(id) && tiles[id].def.solid
    } else {
        true
    }
}

impl TilemapDef {
    /// Whether the cell (x, y) blocks movement.
    pub fn is_solid(&self, x: i32, y: i32, registry: &TileRegistry) -> (b: bool)
        requires
            0 <= x < self.width && 0 <= y < self.height ==> y * self.width + x <= usize::MAX,
        ensures
            b == solid_at(*self, x as int, y as int, registry@),
    {
        if x < 0 || y < 0 || x as usize >= self.width || y as usize >= self.height {
            return true;
        }
        let xu = x as usize;
        let yu = y as usize;
        proof {
            assert(yu * self.width <= yu * self.width + xu);
        }
        let idx = yu * self.width + xu;
        if idx < self.tiles.len() {
            registry.is_solid(&self.tiles[idx])
        } else {
            true
        }
    }
}

/// What an NPC says when the player talks to it, by NPC type, whether the
/// player is armed, and (for shopkeepers) whether it is night.
pub open spec fn talk_text(npc_type: NpcType, player_armed: bool, time_of_day: TimeOfDay) -> Seq<char> {
    match npc_type {
        NpcType::Pedestrian => if player_armed { "Hey. You look like trouble."@ } else { "Need something?"@ },
        NpcType::Shopkeeper => if time_of_day == TimeOfDay::Night {
            "We're closing soon. Buy something or move on."@
        } else {
            "Welcome. Don't touch anything."@
        },
        NpcType::GangMember => if player_armed {
            "Wrong colors, wrong block, wrong idea."@
        } else {
            "You lost, or just stupid?"@
        },
    }
}

/// The line an NPC says in conversation.
pub fn talk_line(npc_type: NpcType, player_armed: bool, time_of_day: TimeOfDay) -> (s: String)
    ensures
        s@ == talk_text(npc_type, player_armed, time_of_day),
{
    match npc_type {
        NpcType::Pedestrian => {
            if player_armed {
                "Hey. You look like trouble.".to_owned()
            } else {
                "Need something?".to_owned()
            }
        },
        NpcType::Shopkeeper => {
            if time_of_day == TimeOfDay::Night {
                "We're closing soon. Buy something or move on.".to_owned()
            } else {
                "Welcome. Don't touch anything.".to_owned()
            }
        },
        NpcType::GangMember => {
            if player_armed {
                "Wrong colors, wrong block, wrong idea.".to_owned()
            } else {
                "You lost, or just stupid?".to_owned()
            }
        },
    }
}

/// Width of the East Blocks test map, in tiles.
pub const TEST_MAP_W: usize = 25;

/// Height of the East Blocks test map, in tiles.
pub const TEST_MAP_H: usize = 19;

/// Grass patches of the test map.
pub open spec fn test_grass(x: int, y: int) -> bool {
    (y == 3 && (x == 3 || x == 4)) || (y == 4 && x == 3) || (y == 15 && (x == 21 || x == 22))
}

/// Corner buildings of the test map (4 x 3 tiles each).
pub open spec fn test_building(x: int, y: int) -> bool {
    ((2 <= x < 6) || (18 <= x < 22)) && ((2 <= y < 5) || (14 <= y < 17))
}

/// The tile id at (x, y) of the East Blocks test map: walls all round, a
/// horizontal and a vertical street (sidewalk between two asphalt lanes,
/// the vertical one crossing over the horizontal one), four corner
/// buildings and a few grass patches on top of them.
pub open spec fn test_tile(x: int, y: int) -> Seq<char> {
    if test_grass(x, y) {
        "grass"@
    } else if test_building(x, y) {
        "building"@
    } else if 1 <= y <= 17 && x == 12 {
        "sidewalk"@
    } else if 1 <= y <= 17 && (x == 11 || x == 13) {
        "asphalt"@
    } else if 1 <= x <= 23 && y == 9 {
        "sidewalk"@
    } else if 1 <= x <= 23 && (y == 8 || y == 10) {
        "asphalt"@
    } else if x == 0 || x == 24 || y == 0 || y == 18 {
        "wall"@
    } else {
        "asphalt"@
    }
}

/// The tile id of one cell of the test map.
fn test_tile_name(x: usize, y: usize) -> (s: String)
    requires
        x < TEST_MAP_W,
        y < TEST_MAP_H,
    ensures
        s@ == test_tile(x as int, y as int),
{
    let grass = (y == 3 && (x == 3 || x == 4)) || (y == 4 && x == 3) || (y == 15 && (x == 21 || x == 22));
    let building = ((2 <= x && x < 6) || (18 <= x && x < 22)) && ((2 <= y && y < 5) || (14 <= y && y < 17));
    if grass {
        "grass".to_owned()
    } else if building {
        "building".to_owned()
    } else if 1 <= y && y <= 17 && x == 12 {
        "sidewalk".to_owned()
    } else if 1 <= y && y <= 17 && (x == 11 || x == 13) {
        "asphalt".to_owned()
    } else if 1 <= x && x <= 23 && y == 9 {
        "sidewalk".to_owned()
    } else if 1 <= x && x <= 23 && (y == 8 || y == 10) {
        "asphalt".to_owned()
    } else if x == 0 || x == 24 || y == 0 || y == 18 {
        "wall".to_owned()
    } else {
        "asphalt".to_owned()
    }
}

/// The East Blocks test map, 25 x 19 tiles, laid out row by row.
pub fn build_test_tilemap_def() -> (def: TilemapDef)
    ensures
        def.width == TEST_MAP_W,
        def.height == TEST_MAP_H,
        def.tiles@.len() == TEST_MAP_W * TEST_MAP_H,
        forall|i: int| 0 <= i < TEST_MAP_W * TEST_MAP_H
            ==> (#[trigger] def.tiles@[i])@ == test_tile(i % 25, i / 25),
{
    let w = TEST_MAP_W;
    let h = TEST_MAP_H;
    let mut tiles: Vec<String> = Vec::new();
    let mut y: usize = 0;
    while y < h
        invariant
            w == 25,
            h == 19,
            0 <= y <= h,
            tiles@.len() == y * 25,
            forall|i: int| 0 <= i < tiles@.len() ==> (#[trigger] tiles@[i])@ == test_tile(i % 25, i / 25),
        decreases h - y,
    {
        let mut x: usize = 0;
        while x < w
            invariant
                w == 25,
                h == 19,
                0 <= y < h,
                0 <= x <= w,
                tiles@.len() == y * 25 + x,
                forall|i: int| 0 <= i < tiles@.len() ==> (#[trigger] tiles@[i])@ == test_tile(i % 25, i / 25),
            decreases w - x,
        {
            let name = test_tile_name(x, y);
            proof {
                let i = y * 25 + x;
                assert(i % 25 == x as int && i / 25 == y as int) by (nonlinear_arith)
                    requires
                        i == y * 25 + x,
                        0 <= x < 25,
                        0 <= y;
            }
            tiles.push(name);
            x = x + 1;
        }
        y = y + 1;
    }
    TilemapDef { width: w, height: h, tiles }
}


/// An NPC's next state: panic when terrified, flee when scared, talk when
/// the unarmed player is close; otherwise an NPC that was fleeing or
/// panicking keeps doing so until it has calmed down, and any other walks.
/// The caller decides from fear and distance which of these hold.
pub open spec fn next_npc_state(prev: NpcState, terrified: bool, scared: bool, chatting: bool, calmed: bool) -> NpcState {
    if terrified {
        NpcState::Panic
    } else if scared {
        NpcState::Flee
    } else if chatting {
        NpcState::Talk
    } else if prev == NpcState::Flee || prev == NpcState::Panic {
        if calmed { NpcState::Walk } else { prev }
    } else {
        NpcState::Walk
    }
}

impl NpcState {
    /// The NPC's next state (see `next_npc_state`).
    pub fn next(self, terrified: bool, scared: bool, chatting: bool, calmed: bool) -> (s: NpcState)
        ensures
            s == next_npc_state(self, terrified, scared, chatting, calmed),
    {
        if terrified {
            NpcState::Panic
        } else if scared {
            NpcState::Flee
        } else if chatting {
            NpcState::Talk
        } else if self == NpcState::Flee || self == NpcState::Panic {
            if calmed {
                NpcState::Walk
            } else {
                self
            }
        } else {
            NpcState::Walk
        }
    }
}

/// NPCs never stand idle by their own choice, and one that was scared off
/// stays away until it has calmed down.
pub proof fn lemma_npc_transitions(prev: NpcState, terrified: bool, scared: bool, chatting: bool, calmed: bool)
    ensures
        next_npc_state(prev, terrified, scared, chatting, calmed) != NpcState::Idle,
        (prev == NpcState::Flee || prev == NpcState::Panic) && !calmed && !chatting ==> next_npc_state(
            prev,
            terrified,
            scared,
            chatting,
            calmed,
        ) != NpcState::Walk,
{
}

/// One of four lines, picked by the distance.
pub open spec fn pick_line(distance: usize, lines: Seq<Seq<char>>) -> Seq<char> {
    lines[(distance % 4) as int]
}

/// The greeting of the time of day.
pub open spec fn greeting_text(t: TimeOfDay) -> Seq<char> {
    match t {
        TimeOfDay::Dawn => "Early bird, huh?"@,
        TimeOfDay::Morning => "Morning. Coffee hasn't kicked in yet."@,
        TimeOfDay::Afternoon => "Nice day. If you ignore the cops."@,
        TimeOfDay::Evening => "Evening. Streets get weird after dark."@,
        TimeOfDay::Night => "You shouldn't be out here. Neither should I."@,
    }
}

/// What an NPC says, if anything, at `distance` whole pixels from the
/// player: a panicking or fleeing NPC shouts one of its lines; a talking
/// one within 30 says its talk line; within 60 of an armed player any NPC
/// warns; a pedestrian walking or idling within 35 greets by the time of
/// day.
pub open spec fn npc_line_text(
    npc_state: NpcState,
    npc_type: NpcType,
    time_of_day: TimeOfDay,
    player_armed: bool,
    distance: usize,
) -> Option<Seq<char>> {
    if npc_state == NpcState::Panic {
        Some(pick_line(distance, seq![
            "Hey! What are you doing?!"@,
            "Someone call the cops!"@,
            "Get away from me!"@,
            "I don't want any trouble!"@,
        ]))
    } else if npc_state == NpcState::Flee {
        Some(pick_line(distance, seq![
            "Not sticking around for this."@,
            "I'm out of here."@,
            "You're crazy, you know that?"@,
            "This is not my problem."@,
        ]))
    } else if npc_state == NpcState::Talk && distance < 30 {
        Some(talk_text(npc_type, player_armed, time_of_day))
    } else if distance < 60 && player_armed {
        Some(pick_line(distance, seq![
            "Whoa, put that away."@,
            "Wrong block for that, friend."@,
            "You're gonna get us both killed."@,
            "Man, that's not a toy."@,
        ]))
    } else if distance < 40 && (npc_state == NpcState::Walk || npc_state == NpcState::Idle)
        && npc_type == NpcType::Pedestrian && distance < 35 {
        Some(greeting_text(time_of_day))
    } else {
        None
    }
}

fn one_of_four(distance: usize, a: &str, b: &str, c: &str, d: &str) -> (s: String)
    ensures
        s@ == pick_line(distance, seq![a@, b@, c@, d@]),
{
    let i = distance % 4;
    if i == 0 {
        a.to_owned()
    } else if i == 1 {
        b.to_owned()
    } else if i == 2 {
        c.to_owned()
    } else {
        d.to_owned()
    }
}

/// What an NPC says to the player at `distance` whole pixels (the float
/// distance truncated), if anything.
pub fn generate_line(
    npc_state: NpcState,
    npc_type: NpcType,
    time_of_day: TimeOfDay,
    player_armed: bool,
    distance: usize,
) -> (r: Option<String>)
    ensures
        r matches Some(s) ==> npc_line_text(npc_state, npc_type, time_of_day, player_armed, distance)
            == Some(s@),
        r is None ==> npc_line_text(npc_state, npc_type, time_of_day, player_armed, distance) is None,
{
    match npc_state {
        NpcState::Panic => {
            return Some(
                one_of_four(
                    distance,
                    "Hey! What are you doing?!",
                    "Someone call the cops!",
                    "Get away from me!",
                    "I don't want any trouble!",
                ),
            );
        },
        NpcState::Flee => {
            return Some(
                one_of_four(
                    distance,
                    "Not sticking around for this.",
                    "I'm out of here.",
                    "You're crazy, you know that?",
                    "This is not my problem.",
                ),
            );
        },
        NpcState::Talk => {
            if distance < 30 {
                return Some(talk_line(npc_type, player_armed, time_of_day));
            }
        },
        _ => {},
    }
    if distance < 60 && player_armed {
        return Some(
            one_of_four(
                distance,
                "Whoa, put that away.",
                "Wrong block for that, friend.",
                "You're gonna get us both killed.",
                "Man, that's not a toy.",
            ),
        );
    }
    if distance < 40 && (npc_state == NpcState::Walk || npc_state == NpcState::Idle) {
        let line = match time_of_day {
            TimeOfDay::Dawn => "Early bird, huh?",
            TimeOfDay::Morning => "Morning. Coffee hasn't kicked in yet.",
            TimeOfDay::Afternoon => "Nice day. If you ignore the cops.",
            TimeOfDay::Evening => "Evening. Streets get weird after dark.",
            TimeOfDay::Night => "You shouldn't be out here. Neither should I.",
        };
        if npc_type == NpcType::Pedestrian && distance < 35 {
            return Some(line.to_owned());
        }
    }
    None
}

} // verus!
