use vstd::prelude::*;
use vstd::string::StringSliceAdditionalSpecFns;

use crate::autosplitter::GameSignals;
use crate::sample::{is_changed, is_changed_from, Pair, Sample};

verus! {

/// Risk of Rain Returns Settings
#[derive(Clone, Copy, PartialEq, Eq, Structural, Debug)]
pub struct GameSettings {
    /// Split on stage transitions
    pub rorr_stages: bool,
}

/// Game state watchers
#[derive(Clone, Copy)]
pub struct GameVars {
    /// GameMaker room ID
    pub room: Sample<i32>,
}

pub struct Game {
    pub settings: GameSettings,
    pub game_state: GameVars,
}

/// Title screens, logs and lobby.
pub open spec fn is_menu_room_spec(room: i32) -> bool {
    room == 1 || room == 2 || room == 3 || room == 4 || room == 7
}

pub fn is_menu_room(room: i32) -> (r: bool)
    ensures
        r == is_menu_room_spec(room),
{
    room == 1 || room == 2 || room == 3 || room == 4 || room == 7
}

/// Start when leaving the lobby (room 4) for anything but rooms 2 to 4.
pub open spec fn start_spec(room: Option<Pair<i32>>) -> bool {
    is_changed_from(room, 4) && !(2 <= room->0.latest <= 4)
}

/// Reset when entering the lobby.
pub open spec fn reset_spec(room: Option<Pair<i32>>) -> bool {
    room is Some && room->0.latest == 4
}

/// Split on a room change that neither leaves nor enters a menu room,
/// unless the run completes on this tick.
pub open spec fn split_spec(settings: GameSettings, room: Option<Pair<i32>>) -> bool {
    is_changed(room) && settings.rorr_stages && !(is_menu_room_spec(room->0.previous)
        || is_menu_room_spec(room->0.latest)) && !completed_spec(room)
}

/// Completed on entering the outro cutscene (room 8).
pub open spec fn completed_spec(room: Option<Pair<i32>>) -> bool {
    is_changed(room) && room->0.latest == 8
}

impl Default for GameSettings {
    /// Every split option starts off.
    fn default() -> (r: Self)
        ensures
            r.rorr_stages == false,
    {
        GameSettings { rorr_stages: false }
    }
}

impl Game {
    /// Process name(s) the game can attach to, in the order to try them
    pub fn process_names(&self) -> (r: Vec<&'static str>)
        ensures
            r@ == seq!["Risk of Rain Returns.exe"],
    {
        let r = vec!["Risk of Rain Returns.exe"];
        assert(r@ =~= seq!["Risk of Rain Returns.exe"]);
        r
    }

    pub fn new(settings: GameSettings) -> (r: Self)
        ensures
            r.settings == settings,
            r.game_state.room.pair is None,
    {
        Game { settings, game_state: GameVars { room: Sample::new() } }
    }

    pub fn reset_state(&mut self)
        ensures
            final(self).settings == old(self).settings,
            final(self).game_state.room.pair is None,
    {
        self.game_state = GameVars { room: Sample::new() };
    }

    /// Start when entering a game from the lobby
    pub fn start(&self) -> (r: bool)
        ensures
            r == start_spec(self.game_state.room.pair),
    {
        match self.game_state.room.pair {
            Some(room) => self.game_state.room.changed_from(4) && !(2 <= room.latest && room.latest <= 4),
            None => false,
        }
    }

    /// Reset when entering the lobby
    pub fn reset(&self) -> (r: bool)
        ensures
            r == reset_spec(self.game_state.room.pair),
    {
        match self.game_state.room.pair {
            Some(room) => room.latest == 4,
            None => false,
        }
    }

    /// Split on stage change, never on the tick the run completes
    pub fn split(&self) -> (r: bool)
        ensures
            r == split_spec(self.settings, self.game_state.room.pair),
    {
        match self.game_state.room.pair {
            Some(room) => {
                if self.game_state.room.changed() {
                    // Don't split when returning to the lobby
                    self.settings.rorr_stages && !(is_menu_room(room.previous) || is_menu_room(room.latest))
                        && !self.completed()
                } else {
                    false
                }
            },
            None => false,
        }
    }

    /// Completed on reaching the outro cutscene
    pub fn completed(&self) -> (r: bool)
        ensures
            r == completed_spec(self.game_state.room.pair),
    {
        match self.game_state.room.pair {
            Some(room) => self.game_state.room.changed() && room.latest == 8,
            None => false,
        }
    }

    /// No load removal
    pub fn is_loading(&self) -> (r: Option<bool>)
        ensures
            r == Some(false),
    {
        Some(false)
    }

    /// What this game reports to the autosplitter on this tick.
    pub fn signals(&self) -> (r: GameSignals)
        ensures
            r.start == start_spec(self.game_state.room.pair),
            r.reset == reset_spec(self.game_state.room.pair),
            r.split == split_spec(self.settings, self.game_state.room.pair),
            r.completed == completed_spec(self.game_state.room.pair),
            r.loading == Some(false),
    {
        GameSignals {
            start: self.start(),
            reset: self.reset(),
            split: self.split(),
            completed: self.completed(),
            loading: self.is_loading(),
        }
    }
}

/// A tick never reports both a split and the run's completion.
pub proof fn lemma_split_excludes_completion(settings: GameSettings, room: Option<Pair<i32>>)
    ensures
        !(split_spec(settings, room) && completed_spec(room)),
{
}

/// Version specific build info used for version detection
pub struct BuildString {
    /// Where the build string lies, relative to the main module.
    pub address: u64,
    pub expected: &'static str,
}

/// Version specific pointer offsets to game vars
pub struct GameVarOffsets {
    pub room: Vec<u64>,
    pub in_game_time: Vec<u64>,
}

#[derive(Clone, Copy, PartialEq, Eq, Structural, Debug)]
pub enum GameVersion {
    V1_0_1,
    V1_0_2,
    V1_0_3,
    V1_0_4,
    V1_0_5,
}

impl GameVersion {
    /// The version as players know it, e.g. "v1.0.3".
    pub fn version_string(&self) -> (r: &'static str)
        ensures
            r == match self {
                GameVersion::V1_0_1 => "v1.0.1",
                GameVersion::V1_0_2 => "v1.0.2",
                GameVersion::V1_0_3 => "v1.0.3",
                GameVersion::V1_0_4 => "v1.0.4",
                GameVersion::V1_0_5 => "v1.0.5",
            },
    {
        match self {
            GameVersion::V1_0_1 => "v1.0.1",
            GameVersion::V1_0_2 => "v1.0.2",
            GameVersion::V1_0_3 => "v1.0.3",
            GameVersion::V1_0_4 => "v1.0.4",
            GameVersion::V1_0_5 => "v1.0.5",
        }
    }
}

pub struct GameVersionData {
    pub version: GameVersion,
    pub build_string: BuildString,
    pub offsets: GameVarOffsets,
}

/// A version profile as the contracts see it.
pub ghost struct VersionProfile {
    pub address: u64,
    pub expected: &'static str,
    pub room: Seq<u64>,
    pub in_game_time: Seq<u64>,
}

impl GameVersionData {
    pub open spec fn profile(&self) -> VersionProfile {
        VersionProfile {
            address: self.build_string.address,
            expected: self.build_string.expected,
            room: self.offsets.room@,
            in_game_time: self.offsets.in_game_time@,
        }
    }
}

/// A pointer chain bound to a base address: the value lies at the end of
/// the chain of offsets, read with pointers of the given width.
pub struct BoundPointer {
    pub base: u64,
    pub offsets: Vec<u64>,
    pub is_64bit: bool,
}

/// Guaranteed to be large enough to hold a pointer to "room" from any version
pub type RoomPointer = BoundPointer;
/// Guaranteed to be large enough to hold a pointer to "in_game_time" from any version
pub type IGTPointer = BoundPointer;

/// The bytes read at a profile's build string address, if the read worked.
pub open spec fn read_of(reads: Seq<Option<Vec<u8>>>, i: int) -> Option<Seq<u8>> {
    if 0 <= i < reads.len() {
        match reads[i] {
            Some(b) => Some(b@),
            None => None,
        }
    } else {
        None
    }
}

/// The bytes read start with the expected build string.
pub open spec fn signature_matches(read: Seq<u8>, expected: Seq<u8>) -> bool {
    read.len() >= expected.len() && read.subrange(0, expected.len() as int) == expected
}

/// Profile `i` of `t` matches what was read for it.
pub open spec fn profile_matches(t: Seq<VersionProfile>, reads: Seq<Option<Vec<u8>>>, i: int) -> bool {
    match read_of(reads, i) {
        Some(b) => signature_matches(b, t[i].expected.spec_bytes()),
        None => false,
    }
}

/// The offsets of the first profile at or after `k` that matches.
pub open spec fn resolution_from(t: Seq<VersionProfile>, reads: Seq<Option<Vec<u8>>>, k: int) -> Option<(Seq<u64>, Seq<u64>)>
    decreases t.len() - k,
{
    if k < 0 || k >= t.len() {
        None
    } else if profile_matches(t, reads, k) {
        Some((t[k].room, t[k].in_game_time))
    } else {
        resolution_from(t, reads, k + 1)
    }
}

/// The room and in-game-time offsets of the first profile of `t` that matches.
pub open spec fn resolution(t: Seq<VersionProfile>, reads: Seq<Option<Vec<u8>>>) -> Option<(Seq<u64>, Seq<u64>)> {
    resolution_from(t, reads, 0)
}

pub open spec fn profiles_of(data: Seq<GameVersionData>) -> Seq<VersionProfile> {
    data.map_values(|d: GameVersionData| d.profile())
}

/// Compares the bytes read at a build string's address with the string.
pub fn check_build_string(buf: &Vec<u8>, build_string: &BuildString) -> (r: bool)
    ensures
        r == signature_matches(buf@, build_string.expected.spec_bytes()),
{
    let expected = build_string.expected.as_bytes();
    if buf.len() < expected.len() {
        return false;
    }
    let mut i: usize = 0;
    while i < expected.len()
        invariant
            expected@ == build_string.expected.spec_bytes(),
            buf@.len() >= expected@.len(),
            i <= expected@.len(),
            forall|j: int| 0 <= j < i ==> buf@[j] == expected@[j],
        decreases expected@.len() - i,
    {
        if buf[i] != expected[i] {
            assert(buf@.subrange(0, expected@.len() as int)[i as int] != expected@[i as int]);
            return false;
        }
        i = i + 1;
    }
    assert(buf@.subrange(0, expected@.len() as int) =~= expected@);
    true
}

fn bind_pointer(base: u64, offsets: &Vec<u64>) -> (r: BoundPointer)
    ensures
        r.base == base,
        r.offsets@ == offsets@,
        r.is_64bit,
{
    BoundPointer { base, offsets: offsets.clone(), is_64bit: true }
}

/// Finds the first profile of `table` whose build string matches what was
/// read for it (`reads[i]` for profile `i`; `None` or a missing entry is a
/// failed read), and binds its pointer chains to `module_offset`.
pub fn resolve(table: &Vec<GameVersionData>, module_offset: u64, reads: &Vec<Option<Vec<u8>>>) -> (r: Option<(RoomPointer, IGTPointer)>)
    ensures
        match (r, resolution(profiles_of(table@), reads@)) {
            (None, None) => true,
            (Some((room, igt)), Some((room_offsets, igt_offsets))) => {
                room.base == module_offset && igt.base == module_offset
                    && room.is_64bit && igt.is_64bit
                    && room.offsets@ == room_offsets && igt.offsets@ == igt_offsets
            },
            _ => false,
        },
{
    let ghost t = profiles_of(table@);
    let mut i: usize = 0;
    while i < table.len()
        invariant
            t == profiles_of(table@),
            i <= table@.len(),
            resolution(t, reads@) == resolution_from(t, reads@, i as int),
        decreases table@.len() - i,
    {
        let gv = &table[i];
        let matched = if i < reads.len() {
            match &reads[i] {
                Some(buf) => check_build_string(buf, &gv.build_string),
                None => false,
            }
        } else {
            false
        };
        assert(t[i as int] == gv.profile());
        if matched {
            assert(profile_matches(t, reads@, i as int));
            let room = bind_pointer(module_offset, &gv.offsets.room);
            let igt = bind_pointer(module_offset, &gv.offsets.in_game_time);
            return Some((room, igt));
        }
        assert(!profile_matches(t, reads@, i as int));
        i = i + 1;
    }
    None
}

/// Every version profile this autosplitter supports, newest last.
pub open spec fn supported_profiles() -> Seq<VersionProfile> {
    seq![
        VersionProfile {
            address: 0x1A7C700u64,
            expected: "BUILD_ID: 234, BUILD_BRANCH: PATCH_1_0_3, VERSION_STRING: 1.0.3",
            room: seq![0x2127B18u64],
            in_game_time: seq![0x1F01C98u64, 0x10, 0x1CF0, 0x1B0, 0x48, 0x10, 0x0, 0x0, 0x48, 0x10, 0x50, 0x0],
        },
        VersionProfile {
            address: 0x1ABCB10u64,
            expected: "BUILD_ID: 242, BUILD_BRANCH: the-mouse-aim-branch, VERSION_STRING: 1.0.4",
            room: seq![0x2172888u64],
            in_game_time: seq![0x01F5F300u64, 0x170, 0x10, 0x90, 0x0, 0x48, 0x10, 0x60, 0x0, 0x48, 0x10, 0x1B0, 0x0],
        },
        VersionProfile {
            address: 0x1ABC988u64,
            expected: "BUILD_ID: 248, BUILD_BRANCH: master, VERSION_STRING: 1.0.4",
            room: seq![0x21729D8u64],
            in_game_time: seq![0x01F5F450u64, 0x120, 0x10, 0x90, 0x0, 0x48, 0x10, 0xd0, 0x0, 0x48, 0x10, 0x2e0, 0x0],
        },
    ]
}

/// `m` is the largest of `lens` (zero when there is none).
pub open spec fn is_max_len(m: int, lens: Seq<int>) -> bool {
    &&& forall|i: int| 0 <= i < lens.len() ==> lens[i] <= m
    &&& (m == 0 || exists|i: int| 0 <= i < lens.len() && lens[i] == m)
}

pub open spec fn build_string_lens(t: Seq<VersionProfile>) -> Seq<int> {
    t.map_values(|p: VersionProfile| p.expected.spec_bytes().len() as int)
}

pub open spec fn room_lens(t: Seq<VersionProfile>) -> Seq<int> {
    t.map_values(|p: VersionProfile| p.room.len() as int)
}

pub open spec fn igt_lens(t: Seq<VersionProfile>) -> Seq<int> {
    t.map_values(|p: VersionProfile| p.in_game_time.len() as int)
}

/// Length of the longest room pointer path of any supported version.
pub const ROOM_PATH_LEN: usize = 1;

/// Length of the longest in-game-time pointer path of any supported version.
pub const IGT_PATH_LEN: usize = 13;

/// Holds static data for each game version the autosplitter supports
pub struct SupportedGameVersions;

impl SupportedGameVersions {
    /// Autosplitter reference data for every supported version
    pub fn data() -> (r: Vec<GameVersionData>)
        ensures
            profiles_of(r@) == supported_profiles(),
            r@[0].version == GameVersion::V1_0_3,
            r@[1].version == GameVersion::V1_0_4,
            r@[2].version == GameVersion::V1_0_5,
    {
        let v3 = GameVersionData {
            version: GameVersion::V1_0_3,
            build_string: BuildString {
                address: 0x1A7C700,
                expected: "BUILD_ID: 234, BUILD_BRANCH: PATCH_1_0_3, VERSION_STRING: 1.0.3",
            },
            offsets: GameVarOffsets {
                room: vec![0x2127B18],
                in_game_time: vec![0x1F01C98, 0x10, 0x1CF0, 0x1B0, 0x48, 0x10, 0x0, 0x0, 0x48, 0x10, 0x50, 0x0],
            },
        };
        let v4 = GameVersionData {
            version: GameVersion::V1_0_4,
            build_string: BuildString {
                address: 0x1ABCB10,
                expected: "BUILD_ID: 242, BUILD_BRANCH: the-mouse-aim-branch, VERSION_STRING: 1.0.4",
            },
            offsets: GameVarOffsets {
                room: vec![0x2172888],
                in_game_time: vec![0x01F5F300, 0x170, 0x10, 0x90, 0x0, 0x48, 0x10, 0x60, 0x0, 0x48, 0x10, 0x1B0, 0x0],
            },
        };
        let v5 = GameVersionData {
            version: GameVersion::V1_0_5,
            build_string: BuildString {
                address: 0x1ABC988,
                expected: "BUILD_ID: 248, BUILD_BRANCH: master, VERSION_STRING: 1.0.4",
            },
            offsets: GameVarOffsets {
                room: vec![0x21729D8],
                in_game_time: vec![0x01F5F450, 0x120, 0x10, 0x90, 0x0, 0x48, 0x10, 0xd0, 0x0, 0x48, 0x10, 0x2e0, 0x0],
            },
        };
        assert(v3.offsets.room@ =~= supported_profiles()[0].room);
        assert(v3.offsets.in_game_time@ =~= supported_profiles()[0].in_game_time);
        assert(v4.offsets.room@ =~= supported_profiles()[1].room);
        assert(v4.offsets.in_game_time@ =~= supported_profiles()[1].in_game_time);
        assert(v5.offsets.room@ =~= supported_profiles()[2].room);
        assert(v5.offsets.in_game_time@ =~= supported_profiles()[2].in_game_time);
        let r = vec![v3, v4, v5];
        assert(profiles_of(r@) =~= supported_profiles());
        r
    }

    /// size of longest BuildString
    pub fn strbuf_len() -> (r: usize)
        ensures
            is_max_len(r as int, build_string_lens(supported_profiles())),
    {
        Self::max_len_all().0
    }

    /// size of longest room pointer path
    pub fn room_len() -> (r: usize)
        ensures
            is_max_len(r as int, room_lens(supported_profiles())),
            r == ROOM_PATH_LEN,
    {
        let r = Self::max_len_all().1;
        let ghost lens = room_lens(supported_profiles());
        assert(lens.len() == 3 && lens[0] == 1 && lens[1] == 1 && lens[2] == 1);
        r
    }

    /// size of longest in_game_time pointer path
    pub fn igt_len() -> (r: usize)
        ensures
            is_max_len(r as int, igt_lens(supported_profiles())),
            r == IGT_PATH_LEN,
    {
        let r = Self::max_len_all().2;
        let ghost lens = igt_lens(supported_profiles());
        assert(lens.len() == 3 && lens[0] == 12 && lens[1] == 13 && lens[2] == 13);
        r
    }

    /// The longest build string, room path and in-game-time path over all versions.
    pub fn max_len_all() -> (r: (usize, usize, usize))
        ensures
            is_max_len(r.0 as int, build_string_lens(supported_profiles())),
            is_max_len(r.1 as int, room_lens(supported_profiles())),
            is_max_len(r.2 as int, igt_lens(supported_profiles())),
    {
        let data = Self::data();
        let ghost t = supported_profiles();
        let mut max_build_str: usize = 0;
        let mut max_room: usize = 0;
        let mut max_igt: usize = 0;
        let mut i: usize = 0;
        while i < data.len()
            invariant
                profiles_of(data@) == t,
                i <= data@.len(),
                is_max_len(max_build_str as int, build_string_lens(t).take(i as int)),
                is_max_len(max_room as int, room_lens(t).take(i as int)),
                is_max_len(max_igt as int, igt_lens(t).take(i as int)),
            decreases data@.len() - i,
        {
            assert(t[i as int] == data@[i as int].profile());
            let build_str_len = data[i].build_string.expected.as_bytes().len();
            let room_len = data[i].offsets.room.len();
            let igt_len = data[i].offsets.in_game_time.len();
            let ghost (b0, r0, g0) = (max_build_str, max_room, max_igt);
            if max_build_str < build_str_len {
                max_build_str = build_str_len;
            }
            if max_room < room_len {
                max_room = room_len;
            }
            if max_igt < igt_len {
                max_igt = igt_len;
            }
            proof {
                let bl = build_string_lens(t);
                let rl = room_lens(t);
                let gl = igt_lens(t);
                assert(bl.take(i + 1) =~= bl.take(i as int).push(bl[i as int]));
                assert(rl.take(i + 1) =~= rl.take(i as int).push(rl[i as int]));
                assert(gl.take(i + 1) =~= gl.take(i as int).push(gl[i as int]));
                if b0 != 0 && max_build_str == b0 {
                    let j = choose|j: int| 0 <= j < i && bl.take(i as int)[j] == b0;
                    assert(bl.take(i + 1)[j] == b0);
                }
                if r0 != 0 && max_room == r0 {
                    let j = choose|j: int| 0 <= j < i && rl.take(i as int)[j] == r0;
                    assert(rl.take(i + 1)[j] == r0);
                }
                if g0 != 0 && max_igt == g0 {
                    let j = choose|j: int| 0 <= j < i && gl.take(i as int)[j] == g0;
                    assert(gl.take(i + 1)[j] == g0);
                }
                assert(bl.take(i + 1)[i as int] == bl[i as int]);
                assert(rl.take(i + 1)[i as int] == rl[i as int]);
                assert(gl.take(i + 1)[i as int] == gl[i as int]);
            }
            i = i + 1;
        }
        assert(build_string_lens(t).take(i as int) =~= build_string_lens(t));
        assert(room_lens(t).take(i as int) =~= room_lens(t));
        assert(igt_lens(t).take(i as int) =~= igt_lens(t));
        (max_build_str, max_room, max_igt)
    }
}

/// Autodetects game version and locates offsets for game vars.
///
/// `reads[i]` holds the bytes read at the build string address of the `i`-th
/// supported version (at least `strbuf_len()` of them), or `None` where the
/// read failed.
pub fn find_gamevar_pointers(module_offset: u64, reads: &Vec<Option<Vec<u8>>>) -> (r: Option<(RoomPointer, IGTPointer)>)
    ensures
        match (r, resolution(supported_profiles(), reads@)) {
            (None, None) => true,
            (Some((room, igt)), Some((room_offsets, igt_offsets))) => {
                room.base == module_offset && igt.base == module_offset
                    && room.is_64bit && igt.is_64bit
                    && room.offsets@ == room_offsets && igt.offsets@ == igt_offsets
            },
            _ => false,
        },
        r matches Some((room, igt)) ==> room.offsets@.len() <= ROOM_PATH_LEN && igt.offsets@.len() <= IGT_PATH_LEN,
{
    let data = SupportedGameVersions::data();
    let r = resolve(&data, module_offset, reads);
    proof {
        let t = supported_profiles();
        if resolution(t, reads@) is Some {
            lemma_resolution_is_a_profile(t, reads@, 0);
            let i = choose|i: int| 0 <= i < t.len() && resolution(t, reads@) == Some((t[i].room, t[i].in_game_time));
            assert(t[i].room.len() <= ROOM_PATH_LEN && t[i].in_game_time.len() <= IGT_PATH_LEN);
        }
    }
    r
}

proof fn lemma_resolution_is_a_profile(t: Seq<VersionProfile>, reads: Seq<Option<Vec<u8>>>, k: int)
    requires
        0 <= k,
        resolution_from(t, reads, k) is Some,
    ensures
        exists|i: int| 0 <= i < t.len() && resolution_from(t, reads, k) == Some((t[i].room, t[i].in_game_time)),
    decreases t.len() - k,
{
    if k < t.len() && !profile_matches(t, reads, k) {
        lemma_resolution_is_a_profile(t, reads, k + 1);
    }
}

proof fn lemma_resolution_reaches(t: Seq<VersionProfile>, reads: Seq<Option<Vec<u8>>>, k: int, i: int)
    requires
        0 <= k <= i < t.len(),
        profile_matches(t, reads, i),
        forall|j: int| 0 <= j < i ==> !profile_matches(t, reads, j),
    ensures
        resolution_from(t, reads, k) == Some((t[i].room, t[i].in_game_time)),
    decreases i - k,
{
    if k < i {
        lemma_resolution_reaches(t, reads, k + 1, i);
    }
}

proof fn lemma_resolution_none_from(t: Seq<VersionProfile>, reads: Seq<Option<Vec<u8>>>, k: int)
    requires
        0 <= k,
        forall|j: int| 0 <= j < t.len() ==> !profile_matches(t, reads, j),
    ensures
        resolution_from(t, reads, k) is None,
    decreases t.len() - k,
{
    if k < t.len() {
        lemma_resolution_none_from(t, reads, k + 1);
    }
}

/// The first profile whose build string matches is the one bound, whatever
/// the later profiles hold; earlier profiles that do not match play no part.
pub proof fn lemma_first_match_wins(t: Seq<VersionProfile>, reads: Seq<Option<Vec<u8>>>, i: int)
    requires
        0 <= i < t.len(),
        profile_matches(t, reads, i),
        forall|j: int| 0 <= j < i ==> !profile_matches(t, reads, j),
    ensures
        resolution(t, reads) == Some((t[i].room, t[i].in_game_time)),
{
    lemma_resolution_reaches(t, reads, 0, i);
}

/// Where no profile matches what was read, nothing is resolved; the result
/// depends on the bytes read alone, so it stays absent until they change.
pub proof fn lemma_no_match_is_absent(t: Seq<VersionProfile>, reads: Seq<Option<Vec<u8>>>)
    requires
        forall|j: int| 0 <= j < t.len() ==> !profile_matches(t, reads, j),
    ensures
        resolution(t, reads) is None,
{
    lemma_resolution_none_from(t, reads, 0);
}

} // verus!
