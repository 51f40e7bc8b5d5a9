use ror_autosplitter::game::risk_of_rain_returns::{
    check_build_string, find_gamevar_pointers, resolve, BuildString, GameVarOffsets, GameVersion,
    GameVersionData, SupportedGameVersions, IGT_PATH_LEN, ROOM_PATH_LEN,
};

const V103: &str = "BUILD_ID: 234, BUILD_BRANCH: PATCH_1_0_3, VERSION_STRING: 1.0.3";
const V104: &str = "BUILD_ID: 242, BUILD_BRANCH: the-mouse-aim-branch, VERSION_STRING: 1.0.4";
const V105: &str = "BUILD_ID: 248, BUILD_BRANCH: master, VERSION_STRING: 1.0.4";

/// What a read of the longest build string's size returns where `s` lies.
fn memory_holding(s: &str) -> Vec<u8> {
    let mut b = s.as_bytes().to_vec();
    b.resize(SupportedGameVersions::strbuf_len(), 0xAA);
    b
}

fn profile(address: u64, expected: &'static str, room: Vec<u64>, igt: Vec<u64>) -> GameVersionData {
    GameVersionData {
        version: GameVersion::V1_0_1,
        build_string: BuildString { address, expected },
        offsets: GameVarOffsets { room, in_game_time: igt },
    }
}

#[test]
fn max_lengths() {
    assert_eq!(SupportedGameVersions::max_len_all(), (72, 1, 13));
    assert_eq!(SupportedGameVersions::strbuf_len(), 72);
    assert_eq!(SupportedGameVersions::room_len(), 1);
    assert_eq!(SupportedGameVersions::igt_len(), 13);
}

#[test]
fn data_in_order() {
    let d = SupportedGameVersions::data();
    assert_eq!(d.len(), 3);
    assert_eq!(d[0].build_string.address, 0x1A7C700);
    assert_eq!(d[0].build_string.expected, V103);
    assert_eq!(d[0].offsets.room, vec![0x2127B18]);
    assert_eq!(d[1].version, GameVersion::V1_0_4);
    assert_eq!(d[2].build_string.address, 0x1ABC988);
    assert_eq!(d[2].offsets.in_game_time.len(), 13);
}

#[test]
fn build_string_match() {
    let bs = BuildString { address: 0, expected: "AB" };
    assert!(check_build_string(&vec![b'A', b'B', 0, 7], &bs));
    assert!(check_build_string(&vec![b'A', b'B'], &bs));
    assert!(!check_build_string(&vec![b'A'], &bs));
    assert!(!check_build_string(&vec![b'A', b'C', 0], &bs));
    assert!(!check_build_string(&vec![b'B', b'A'], &bs));
}

#[test]
fn second_profile_matches() {
    let table = vec![
        profile(0x10, "AAAA", vec![1, 2], vec![3]),
        profile(0x20, "BBBB", vec![4], vec![5, 6, 7]),
    ];
    let reads = vec![Some(b"CCCCxx".to_vec()), Some(b"BBBBxx".to_vec())];
    let (room, igt) = resolve(&table, 0x400000, &reads).unwrap();
    assert_eq!(room.base, 0x400000);
    assert_eq!(room.offsets, vec![4]);
    assert_eq!(igt.base, 0x400000);
    assert_eq!(igt.offsets, vec![5, 6, 7]);
    assert!(room.is_64bit && igt.is_64bit);
}

#[test]
fn first_match_wins() {
    let table = vec![
        profile(0x10, "AAAA", vec![1], vec![3]),
        profile(0x20, "AAAA", vec![4], vec![5]),
    ];
    let reads = vec![Some(b"AAAA".to_vec()), Some(b"AAAA".to_vec())];
    let (room, igt) = resolve(&table, 7, &reads).unwrap();
    assert_eq!(room.offsets, vec![1]);
    assert_eq!(igt.offsets, vec![3]);
}

#[test]
fn no_profile_matches() {
    let table = vec![profile(0x10, "AAAA", vec![1], vec![3]), profile(0x20, "BBBB", vec![4], vec![5])];
    let reads = vec![Some(b"AAAB".to_vec()), None];
    assert!(resolve(&table, 0, &reads).is_none());
    assert!(resolve(&table, 0, &reads).is_none());
    assert!(resolve(&table, 0, &vec![]).is_none());
    let changed = vec![Some(b"AAAB".to_vec()), Some(b"BBBB".to_vec())];
    assert_eq!(resolve(&table, 0, &changed).unwrap().0.offsets, vec![4]);
}

#[test]
fn detects_each_supported_version() {
    let garbage = Some(memory_holding("nothing here"));
    let reads = vec![garbage.clone(), Some(memory_holding(V104)), garbage.clone()];
    let (room, igt) = find_gamevar_pointers(0x140000000, &reads).unwrap();
    assert_eq!(room.base, 0x140000000);
    assert_eq!(room.offsets, vec![0x2172888]);
    assert_eq!(igt.offsets, vec![0x01F5F300, 0x170, 0x10, 0x90, 0x0, 0x48, 0x10, 0x60, 0x0, 0x48, 0x10, 0x1B0, 0x0]);

    let reads = vec![None, garbage.clone(), Some(memory_holding(V105))];
    let (room, _) = find_gamevar_pointers(0, &reads).unwrap();
    assert_eq!(room.offsets, vec![0x21729D8]);

    let reads = vec![Some(memory_holding(V103)), None, None];
    let (room, igt) = find_gamevar_pointers(0, &reads).unwrap();
    assert_eq!(room.offsets, vec![0x2127B18]);
    assert_eq!(igt.offsets.len(), 12);
}

#[test]
fn unsupported_version_is_absent() {
    let reads = vec![Some(memory_holding(V105)), Some(memory_holding(V103)), None];
    assert!(find_gamevar_pointers(0, &reads).is_none());
    assert!(find_gamevar_pointers(0, &vec![None, None, None]).is_none());
}

#[test]
fn version_strings() {
    assert_eq!(GameVersion::V1_0_1.version_string(), "v1.0.1");
    assert_eq!(GameVersion::V1_0_5.version_string(), "v1.0.5");
}

#[test]
fn version_labels_and_path_sizes() {
    let d = SupportedGameVersions::data();
    assert_eq!(d[0].version, GameVersion::V1_0_3);
    assert_eq!(d[1].version, GameVersion::V1_0_4);
    assert_eq!(d[2].version, GameVersion::V1_0_5);
    assert_eq!(ROOM_PATH_LEN, 1);
    assert_eq!(IGT_PATH_LEN, 13);
}

#[test]
fn stops_at_first_match_with_short_reads() {
    let reads = vec![Some(V104.as_bytes().to_vec()), Some(V104.as_bytes().to_vec())];
    let (room, _) = find_gamevar_pointers(0, &reads).unwrap();
    assert_eq!(room.offsets, vec![0x2172888]);
}
