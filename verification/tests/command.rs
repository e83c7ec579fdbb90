use particle_sim::command::{apply_key, Command, CommandUniform, KeyPress};
use particle_sim::config::SimulationConfig;
use particle_sim::sim::SimState;

fn press(text: &str) -> KeyPress {
    KeyPress { pressed: true, synthetic: false, repeat: false, text: Some(text.as_bytes().to_vec()) }
}

#[test]
fn command_starts_as_roam() {
    let config = SimulationConfig::validated(100, 2000).unwrap();
    let state = SimState::new(config, 800, 600);
    assert_eq!(state.command, Command::Roam);
}

#[test]
fn s_press_switches_to_shuffle_and_r_back() {
    let config = SimulationConfig::validated(100, 2000).unwrap();
    let mut state = SimState::new(config, 800, 600);
    state.keyboard_input(&press("s"));
    assert_eq!(state.command, Command::Shuffle);
    state.keyboard_input(&press("r"));
    assert_eq!(state.command, Command::Roam);
}

#[test]
fn synthetic_press_never_changes_state() {
    let key = KeyPress { synthetic: true, ..press("s") };
    assert_eq!(apply_key(Command::Roam, &key), Command::Roam);
    let key = KeyPress { synthetic: true, ..press("r") };
    assert_eq!(apply_key(Command::Shuffle, &key), Command::Shuffle);
}

#[test]
fn repeat_press_never_changes_state() {
    let key = KeyPress { repeat: true, ..press("s") };
    assert_eq!(apply_key(Command::Roam, &key), Command::Roam);
}

#[test]
fn release_never_changes_state() {
    let key = KeyPress { pressed: false, ..press("s") };
    assert_eq!(apply_key(Command::Roam, &key), Command::Roam);
}

#[test]
fn other_keys_never_change_state() {
    assert_eq!(apply_key(Command::Shuffle, &press("x")), Command::Shuffle);
    assert_eq!(apply_key(Command::Shuffle, &press("rs")), Command::Shuffle);
    let non_character = KeyPress { pressed: true, synthetic: false, repeat: false, text: None };
    assert_eq!(apply_key(Command::Shuffle, &non_character), Command::Shuffle);
}

#[test]
fn from_command_encodes_roam_as_zero_and_shuffle_as_one() {
    assert_eq!(CommandUniform::from_command(Command::Roam).command, 0);
    assert_eq!(CommandUniform::from_command(Command::Shuffle).command, 1);
}
