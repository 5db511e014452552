use traffic_manager::arguments::{valid_direction_char, validate_sequence};
use traffic_manager::manager::{ManagerAction, manager_step};

#[test]
fn coin_decides_a_check_before_anything_else() {
    assert_eq!(manager_step(true, 5), ManagerAction::CheckDeadlock);
    assert_eq!(manager_step(true, 0), ManagerAction::CheckDeadlock);
}

#[test]
fn unspawned_directions_are_spawned_in_turn() {
    assert_eq!(manager_step(false, 5), ManagerAction::SpawnNext);
    assert_eq!(manager_step(false, 1), ManagerAction::SpawnNext);
}

#[test]
fn an_exhausted_sequence_drains() {
    assert_eq!(manager_step(false, 0), ManagerAction::Drain);
}

#[test]
fn direction_symbols_accept_both_cases() {
    for c in ['n', 's', 'e', 'w', 'N', 'S', 'E', 'W'] {
        assert!(valid_direction_char(c));
    }
    for c in ['x', 'q', '0', ' ', 'É'] {
        assert!(!valid_direction_char(c));
    }
}

#[test]
fn sequences_are_checked_character_by_character() {
    assert_eq!(validate_sequence(&vec!['n', 'S', 'e', 'W']), None);
    assert_eq!(validate_sequence(&Vec::new()), None);
    assert_eq!(validate_sequence(&vec!['n', 'x', 'w']), Some(1));
    assert_eq!(validate_sequence(&vec!['?']), Some(0));
}
