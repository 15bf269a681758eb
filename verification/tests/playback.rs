use termbf::playback::{Command, Controller, Direction, EditState, SelectItem, Speed, State};

#[test]
fn test_playback_start_ticks_until_stop() {
    let mut ctl = Controller::new("++".to_string());
    assert_eq!(ctl.state(), State::Idle);
    ctl.apply_command(Command::Start);
    assert_eq!(ctl.state(), State::AutoPlay);
    assert_eq!(ctl.selected(), SelectItem::Pause);
    ctl.handle_tick();
    assert_eq!(ctl.state(), State::AutoPlay);
    assert_eq!(ctl.interpreter().total_step_count(), 1);
    ctl.handle_tick();
    assert_eq!(ctl.interpreter().total_step_count(), 2);
    assert!(ctl.interpreter().end());
    // the tick that finds the program ended stops playback
    ctl.handle_tick();
    assert_eq!(ctl.state(), State::Stop);
    assert_eq!(ctl.selected(), SelectItem::Reset);
    // further ticks are no-ops
    ctl.handle_tick();
    assert_eq!(ctl.state(), State::Stop);
    assert_eq!(ctl.interpreter().total_step_count(), 2);
}

#[test]
fn test_playback_reset_rebuilds_engine() {
    let mut ctl = Controller::new("+++".to_string());
    ctl.apply_command(Command::Start);
    ctl.handle_tick();
    ctl.handle_tick();
    assert_eq!(ctl.interpreter().total_step_count(), 2);
    ctl.apply_command(Command::Reset);
    assert_eq!(ctl.state(), State::Idle);
    assert_eq!(ctl.selected(), SelectItem::Start);
    assert_eq!(ctl.interpreter().total_step_count(), 0);
    assert_eq!(ctl.interpreter().memory()[0], 0);
    assert!(!ctl.interpreter().running());
}

#[test]
fn test_step_command() {
    let mut ctl = Controller::new("+".to_string());
    ctl.apply_command(Command::Step);
    assert_eq!(ctl.state(), State::Play);
    assert_eq!(ctl.interpreter().total_step_count(), 1);
    assert!(ctl.interpreter().end());
    // a step at the end stops playback instead of stepping
    ctl.apply_command(Command::Step);
    assert_eq!(ctl.state(), State::Stop);
    assert_eq!(ctl.selected(), SelectItem::Reset);
    assert_eq!(ctl.interpreter().total_step_count(), 1);
}

#[test]
fn test_start_at_end_is_noop() {
    let mut ctl = Controller::new("".to_string());
    ctl.apply_command(Command::Start);
    assert_eq!(ctl.state(), State::Idle);
}

#[test]
fn test_pause_returns_to_play() {
    let mut ctl = Controller::new("++++".to_string());
    ctl.apply_command(Command::Start);
    assert_eq!(ctl.state(), State::AutoPlay);
    ctl.apply_command(Command::Pause);
    assert_eq!(ctl.state(), State::Play);
    assert_eq!(ctl.selected(), SelectItem::Start);
}

#[test]
fn test_space_toggles_run_mode() {
    let mut ctl = Controller::new("++++".to_string());
    ctl.apply_command(Command::SpaceToggleRun);
    assert_eq!(ctl.state(), State::AutoPlay);
    ctl.apply_command(Command::SpaceToggleRun);
    assert_eq!(ctl.state(), State::Play);
    ctl.apply_command(Command::SpaceToggleRun);
    assert_eq!(ctl.state(), State::AutoPlay);
}

#[test]
fn test_quit_command() {
    let mut ctl = Controller::new("".to_string());
    assert!(!ctl.quit());
    ctl.apply_command(Command::Quit);
    assert!(ctl.quit());
}

#[test]
fn test_focus_skips_disabled_items() {
    let mut ctl = Controller::new("+".to_string());
    assert_eq!(ctl.selected(), SelectItem::Source);
    ctl.apply_command(Command::FocusNext);
    assert_eq!(ctl.selected(), SelectItem::Input);
    ctl.apply_command(Command::FocusNext);
    assert_eq!(ctl.selected(), SelectItem::Memory);
    ctl.apply_command(Command::FocusNext);
    assert_eq!(ctl.selected(), SelectItem::Output);
    // Reset is disabled while idle, so focus jumps to Start
    ctl.apply_command(Command::FocusNext);
    assert_eq!(ctl.selected(), SelectItem::Start);
    // Pause is disabled while idle too
    ctl.apply_command(Command::FocusNext);
    assert_eq!(ctl.selected(), SelectItem::Step);
    ctl.apply_command(Command::FocusPrev);
    assert_eq!(ctl.selected(), SelectItem::Start);
}

#[test]
fn test_speed_commands_and_sleep_durations() {
    let mut ctl = Controller::new("".to_string());
    assert_eq!(ctl.speed(), Speed::Normal);
    ctl.apply_command(Command::SetSpeed(Direction::Forward));
    assert_eq!(ctl.speed(), Speed::Fast);
    ctl.apply_command(Command::SetSpeed(Direction::Forward));
    assert_eq!(ctl.speed(), Speed::VeryFast);
    // the cycle wraps around at the fastest
    ctl.apply_command(Command::SetSpeed(Direction::Forward));
    assert_eq!(ctl.speed(), Speed::VerySlow);
    ctl.apply_command(Command::SetSpeed(Direction::Backward));
    assert_eq!(ctl.speed(), Speed::VeryFast);

    assert_eq!(Speed::VerySlow.sleep_duration(), 500);
    assert_eq!(Speed::Slow.sleep_duration(), 200);
    assert_eq!(Speed::Normal.sleep_duration(), 100);
    assert_eq!(Speed::Fast.sleep_duration(), 50);
    assert_eq!(Speed::VeryFast.sleep_duration(), 20);
}

#[test]
fn test_edit_input_commands() {
    let mut ctl = Controller::new(",.".to_string());
    ctl.apply_command(Command::FocusNext);
    assert_eq!(ctl.selected(), SelectItem::Input);
    ctl.apply_command(Command::EnterEditInput);
    assert_eq!(ctl.edit_state(), EditState::EditInput);
    ctl.apply_command(Command::ExitEditInput("hi".to_string()));
    assert_eq!(ctl.edit_state(), EditState::Inactive);
    assert_eq!(ctl.input_text(), "hi");
    assert_eq!(ctl.interpreter().input(), "hi");
    // the committed input feeds later resets too
    ctl.apply_command(Command::Reset);
    assert_eq!(ctl.interpreter().input(), "hi");
}

#[test]
fn test_enter_edit_requires_idle_and_input_focus() {
    let mut ctl = Controller::new("+".to_string());
    // focus is on Source, so entering edit mode is a no-op
    ctl.apply_command(Command::EnterEditInput);
    assert_eq!(ctl.edit_state(), EditState::Inactive);
}

#[test]
fn test_scroll_source_saturates() {
    let mut ctl = Controller::new("+\n-\n>\n".to_string());
    assert_eq!(ctl.scroll_offset(), 0);
    ctl.apply_command(Command::ScrollSource(Direction::Backward));
    assert_eq!(ctl.scroll_offset(), 0);
    ctl.apply_command(Command::ScrollSource(Direction::Forward));
    assert_eq!(ctl.scroll_offset(), 1);
    ctl.apply_command(Command::ScrollSource(Direction::Forward));
    assert_eq!(ctl.scroll_offset(), 2);
    // three lines: the offset never reaches the line count
    ctl.apply_command(Command::ScrollSource(Direction::Forward));
    assert_eq!(ctl.scroll_offset(), 2);
    ctl.apply_command(Command::ScrollSource(Direction::Backward));
    assert_eq!(ctl.scroll_offset(), 1);
}

#[test]
fn test_can_step_reports_engine_state() {
    let ctl = Controller::new("<".to_string());
    assert!(!ctl.can_step());
    let ctl = Controller::new("+".to_string());
    assert!(ctl.can_step());
}

#[test]
fn test_help_message_follows_focus_and_mode() {
    let mut ctl = Controller::new("+".to_string());
    assert_eq!(
        ctl.help_msg(),
        "<Esc> quit app, <Tab/BackTab> next/prev, <j/k> scroll, <Space> start"
    );
    ctl.apply_command(Command::Start);
    // auto-running with the Pause button focused
    assert_eq!(
        ctl.help_msg(),
        "<Esc> quit app, <Tab/BackTab> next/prev, <Enter> pause, <Space> pause"
    );
}

#[test]
fn test_help_message_while_editing() {
    let mut ctl = Controller::new("+".to_string());
    ctl.apply_command(Command::FocusNext);
    ctl.apply_command(Command::EnterEditInput);
    assert_eq!(ctl.help_msg(), "<Esc> exit editing, <Space> start");
}
