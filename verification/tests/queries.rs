use sf6_framedata::character::get_character_by_id;
use sf6_framedata::framedata::{
    eq_ignore_ascii_case, CharacterFrameData, FrameData, Move, SF6FrameDataError,
};
use sf6_framedata::LazyLock;

fn mk_move(identifier: &str) -> Move {
    let dash = || "-".to_string();
    Move {
        identifier: identifier.to_string(),
        input: identifier.to_string(),
        name: format!("name of {}", identifier),
        image_link: dash(),
        damage: dash(),
        chip_damage: dash(),
        damage_scaling: dash(),
        guard: dash(),
        cancel: dash(),
        hitconfirm_window: dash(),
        startup: dash(),
        active: dash(),
        recovery: dash(),
        total: dash(),
        hitstun: dash(),
        blockstun: dash(),
        drive_damage_block: dash(),
        drive_damage_hit: dash(),
        drive_gain: dash(),
        super_gain_hit: dash(),
        super_gain_block: dash(),
        projectile_speed: dash(),
        invuln: dash(),
        armor: dash(),
        airborne: dash(),
        juggle_start: dash(),
        juggle_increase: dash(),
        juggle_limit: dash(),
        perfect_parry_advantage: dash(),
        after_dr_hit: dash(),
        after_dr_block: dash(),
        dr_cancel_hit: dash(),
        dr_cancel_block: dash(),
        punish_advantage: dash(),
        hit_advantage: dash(),
        block_advantage: dash(),
        notes: dash(),
    }
}

fn mk_cfd(id: &str, identifiers: &[&str]) -> CharacterFrameData {
    CharacterFrameData {
        character_id: get_character_by_id(id).expect("in roster"),
        moves: identifiers.iter().map(|i| mk_move(i)).collect(),
    }
}

#[test]
fn find_move_character_misses_character_absent_from_catalog() {
    // Ryu is in the roster, but his load failed: the catalog has no entry
    // for him, which is an unknown character here, not a crash.
    let data = FrameData { character_frame_data: vec![mk_cfd("ken", &["5LP"])] };
    let ryu = get_character_by_id("ryu").expect("in roster");
    let r = data.find_move_character(&ryu, "5LP");
    assert!(matches!(r, Err(SF6FrameDataError::UnknownCharacter)));
}

#[test]
fn find_move_matches_identifier_case_insensitively() {
    let data = FrameData { character_frame_data: vec![mk_cfd("ryu", &["5LP", "214P"])] };
    let upper = data.find_move("ryu", "5LP").expect("move exists");
    let lower = data.find_move("ryu", "5lp").expect("move exists");
    assert_eq!(upper.identifier, lower.identifier);
    assert_eq!(upper.name, lower.name);
    assert_eq!(upper.identifier, "5LP");
}

#[test]
fn find_move_reports_unknown_move() {
    let data = FrameData { character_frame_data: vec![mk_cfd("ryu", &["5LP"])] };
    let r = data.find_move("ryu", "9XX");
    assert!(matches!(r, Err(SF6FrameDataError::UnknownMove)));
}

#[test]
fn find_move_resolves_character_by_pattern() {
    let data = FrameData { character_frame_data: vec![mk_cfd("chunli", &["2HK"])] };
    let m = data.find_move("CHUN-LI", "2hk").expect("pattern and move match");
    assert_eq!(m.identifier, "2HK");
    let r = data.find_move("chunliii", "2hk");
    assert!(matches!(r, Err(SF6FrameDataError::UnknownCharacter)));
}

#[test]
fn find_move_takes_first_of_duplicate_identifiers() {
    let mut cfd = mk_cfd("ryu", &[]);
    let mut first = mk_move("214P");
    first.name = "first".to_string();
    let mut second = mk_move("214p");
    second.name = "second".to_string();
    cfd.moves = vec![first, second];
    let data = FrameData { character_frame_data: vec![cfd] };
    let m = data.find_move("ryu", "214P").expect("move exists");
    assert_eq!(m.name, "first");
}

#[test]
fn catalog_with_one_failed_load_keeps_the_rest() {
    let loads = vec![
        Some(mk_cfd("ryu", &["5LP"])),
        None,
        Some(mk_cfd("ken", &["2HK"])),
    ];
    let data = FrameData::from_loads(loads);
    assert_eq!(data.character_frame_data.len(), 2);
    assert_eq!(data.character_frame_data[0].character_id.id, "ryu");
    assert_eq!(data.character_frame_data[1].character_id.id, "ken");
    assert!(data.find_move("ken", "2hk").is_ok());
}

#[test]
fn find_move_by_pattern_misses_character_absent_from_catalog() {
    let data = FrameData { character_frame_data: vec![mk_cfd("ken", &["5LP"])] };
    let r = data.find_move("ryu", "5LP");
    assert!(matches!(r, Err(SF6FrameDataError::UnknownCharacter)));
}

#[test]
fn empty_catalog_knows_no_character() {
    let data = FrameData { character_frame_data: vec![] };
    let r = data.find_move("ryu", "5LP");
    assert!(matches!(r, Err(SF6FrameDataError::UnknownCharacter)));
}

#[test]
fn catalog_of_failures_alone_is_empty() {
    let data = FrameData::from_loads(vec![None, None]);
    assert!(data.character_frame_data.is_empty());
}

#[test]
fn eq_ignore_ascii_case_cases() {
    assert!(eq_ignore_ascii_case("5Lp", "5lP"));
    assert!(eq_ignore_ascii_case("", ""));
    assert!(!eq_ignore_ascii_case("5LP", "5LPx"));
    assert!(!eq_ignore_ascii_case("5LP", "5MP"));
}

#[test]
fn error_messages() {
    assert_eq!(SF6FrameDataError::UnknownCharacter.message(), "Unknown character");
    assert_eq!(SF6FrameDataError::UnknownMove.message(), "Unknown move");
}

#[test]
fn lazy_lock_forces_its_initializer() {
    let lock = LazyLock::new(|| 41 + 1);
    assert_eq!(lock.force(), 42);
}
