use playback_display::buttons::{step_button, ButtonPanel, ButtonStatus, Command};

#[test]
fn press_fires_once_on_release() {
    let mut status = ButtonStatus::Idle;
    let mut lock = false;
    let samples = [true, false, false, false, true];
    let mut fired = Vec::new();
    for (tick, high) in samples.iter().enumerate() {
        if step_button(&mut status, &mut lock, *high) {
            fired.push(tick);
        }
    }
    assert_eq!(fired, vec![4]);
    assert_eq!(status, ButtonStatus::Idle);
    assert!(!lock);
}

#[test]
fn panel_press_fires_once_on_release() {
    let mut panel = ButtonPanel::new();
    let samples = [true, false, false, false, true];
    let mut commands = Vec::new();
    for high in samples {
        commands.push(panel.tick(true, high, true));
    }
    assert_eq!(commands, vec![None, None, None, None, Some(Command::TogglePlayback)]);
}

#[test]
fn pressing_arms_and_takes_the_lock() {
    let mut panel = ButtonPanel::new();
    assert_eq!(panel.tick(false, true, true), None);
    assert_eq!(panel.previous, ButtonStatus::Armed);
    assert!(panel.lock);
}

#[test]
fn each_button_maps_to_its_command() {
    let mut panel = ButtonPanel::new();
    panel.tick(false, true, true);
    assert_eq!(panel.tick(true, true, true), Some(Command::SkipPrevious));
    panel.tick(true, false, true);
    assert_eq!(panel.tick(true, true, true), Some(Command::TogglePlayback));
    panel.tick(true, true, false);
    assert_eq!(panel.tick(true, true, true), Some(Command::SkipNext));
}

#[test]
fn lock_blocks_a_second_button() {
    let mut panel = ButtonPanel::new();
    panel.tick(false, true, true);
    assert_eq!(panel.tick(false, false, true), None);
    assert_eq!(panel.toggle, ButtonStatus::Idle);
    // releasing the first fires it; the second is armed on the same tick
    assert_eq!(panel.tick(true, false, true), Some(Command::SkipPrevious));
    assert_eq!(panel.toggle, ButtonStatus::Armed);
    assert_eq!(panel.tick(true, true, true), Some(Command::TogglePlayback));
}

#[test]
fn holding_low_never_fires() {
    let mut panel = ButtonPanel::new();
    for _ in 0..10 {
        assert_eq!(panel.tick(true, true, false), None);
    }
    assert_eq!(panel.next, ButtonStatus::Armed);
}
