use meta_export::asset::{AssetType, Audio, Character};
use meta_export::direction::{Direction, Directions};
use meta_export::game::DebugMode;
use meta_export::movement::Movement;
use meta_export::player_one::{PlayerOne, PlayerOneState};
use meta_export::trigger::{LowerTile, UpperTile};

#[test]
fn key_names_give_directions() {
    assert_eq!(Directions::from("n"), Directions::North);
    assert_eq!(Directions::from("s"), Directions::South);
    assert_eq!(Directions::from("e"), Directions::East);
    assert_eq!(Directions::from("w"), Directions::West);
}

#[test]
fn any_other_text_counts_as_north() {
    assert_eq!(Directions::from(""), Directions::North);
    assert_eq!(Directions::from("S"), Directions::North);
    assert_eq!(Directions::from("se"), Directions::North);
    assert_eq!(Directions::from("south"), Directions::North);
    assert_eq!(Directions::from("x"), Directions::North);
}

#[test]
fn character_starts_facing_south() {
    let direction = Direction::default();
    assert_eq!(direction.current, Directions::South);
    assert_eq!(direction.previous, Directions::South);
}

#[test]
fn movement_starts_at_zero() {
    let movement = Movement::default();
    assert_eq!(movement.run_count, 0);
    assert_eq!(movement.turn_count, 0);
}

#[test]
fn new_player_is_idle() {
    assert_eq!(PlayerOne::new().state, PlayerOneState::Idle);
    assert_eq!(PlayerOneState::default(), PlayerOneState::Idle);
}

#[test]
fn debug_mode_goes_round_in_three_steps() {
    assert_eq!(DebugMode::default(), DebugMode::Disabled);
    assert_eq!(DebugMode::Disabled.toggle(), DebugMode::TintLowerLayer);
    assert_eq!(DebugMode::TintLowerLayer.toggle(), DebugMode::TintUpperLayer);
    assert_eq!(DebugMode::TintUpperLayer.toggle(), DebugMode::Disabled);
    for mode in [DebugMode::Disabled, DebugMode::TintLowerLayer, DebugMode::TintUpperLayer] {
        assert_ne!(mode.toggle(), mode);
        assert_eq!(mode.toggle().toggle().toggle(), mode);
    }
}

#[test]
fn asset_kinds_compare_by_what_they_hold() {
    assert_eq!(AssetType::Character(Character::Cain), AssetType::Character(Character::Cain));
    assert_ne!(AssetType::Character(Character::Cain), AssetType::Character(Character::Yang));
    assert_ne!(AssetType::Audio(Audio::BgmAi), AssetType::Audio(Audio::BgmPrologue));
    assert_eq!(UpperTile::default(), UpperTile);
    assert_eq!(LowerTile::default(), LowerTile);
}
