use ror_autosplitter::autosplitter::{
    AutoSplitter, AutoSplitterSettings, AutoSplitterState, GameSignals, TimerCommand, TimerState,
};

fn quiet() -> GameSignals {
    GameSignals { start: false, reset: false, split: false, completed: false, loading: Some(false) }
}

fn defaults() -> AutoSplitterState {
    AutoSplitterState { switching_games: false, autoreset_lockout: false, was_loading: false }
}

#[test]
fn settings_default_to_enabled() {
    let s = AutoSplitterSettings::default();
    assert!(s.start && s.split && s.reset);
    assert_eq!(AutoSplitterState::default(), defaults());
}

#[test]
fn start_when_not_running() {
    let mut a = AutoSplitter::new(AutoSplitterSettings::default());
    a.state.autoreset_lockout = true;
    a.state.switching_games = true;
    let g = GameSignals { start: true, ..quiet() };
    let cmds = a.update_loop(TimerState::NotRunning, Some(g));
    assert_eq!(cmds, vec![TimerCommand::Start, TimerCommand::InitializeGameTime]);
    assert_eq!(a.state, defaults());
}

#[test]
fn start_not_allowed_still_resets_state() {
    let settings = AutoSplitterSettings { start: false, ..AutoSplitterSettings::default() };
    let mut a = AutoSplitter::new(settings);
    a.state.was_loading = true;
    let cmds = a.update_loop(TimerState::NotRunning, Some(GameSignals { start: true, ..quiet() }));
    assert!(cmds.is_empty());
    assert_eq!(a.state, defaults());
}

#[test]
fn completion_splits_regardless_of_setting() {
    for split in [true, false] {
        let settings = AutoSplitterSettings { split, ..AutoSplitterSettings::default() };
        let mut a = AutoSplitter::new(settings);
        let g = GameSignals { completed: true, ..quiet() };
        let cmds = a.update_loop(TimerState::Running, Some(g));
        assert_eq!(cmds.iter().filter(|c| **c == TimerCommand::Split).count(), 1);
        assert_eq!(cmds, vec![TimerCommand::Split, TimerCommand::PauseGameTime]);
        assert!(a.state.autoreset_lockout);
        assert!(a.state.switching_games);
        assert!(a.state.was_loading);
    }
}

#[test]
fn lockout_blocks_reset() {
    let mut a = AutoSplitter::new(AutoSplitterSettings::default());
    a.state.autoreset_lockout = true;
    let cmds = a.update_loop(TimerState::Running, Some(GameSignals { reset: true, ..quiet() }));
    assert!(!cmds.contains(&TimerCommand::Reset));
    assert!(a.state.autoreset_lockout);
}

#[test]
fn reset_without_lockout() {
    let mut a = AutoSplitter::new(AutoSplitterSettings::default());
    a.state.was_loading = true;
    let g = GameSignals { reset: true, split: true, ..quiet() };
    let cmds = a.update_loop(TimerState::Paused, Some(g));
    assert_eq!(cmds, vec![TimerCommand::Reset]);
    assert_eq!(a.state, defaults());
}

#[test]
fn reset_not_allowed() {
    let settings = AutoSplitterSettings { reset: false, ..AutoSplitterSettings::default() };
    let mut a = AutoSplitter::new(settings);
    let cmds = a.update_loop(TimerState::Running, Some(GameSignals { reset: true, ..quiet() }));
    assert!(cmds.is_empty());
}

#[test]
fn split_condition_arms_lockout_even_when_splits_are_off() {
    let settings = AutoSplitterSettings { split: false, ..AutoSplitterSettings::default() };
    let mut a = AutoSplitter::new(settings);
    let cmds = a.update_loop(TimerState::Running, Some(GameSignals { split: true, ..quiet() }));
    assert!(cmds.is_empty());
    assert!(a.state.autoreset_lockout);
    assert!(!a.state.switching_games);
}

#[test]
fn split_when_allowed() {
    let mut a = AutoSplitter::new(AutoSplitterSettings::default());
    let cmds = a.update_loop(TimerState::Running, Some(GameSignals { split: true, ..quiet() }));
    assert_eq!(cmds, vec![TimerCommand::Split]);
    assert!(a.state.autoreset_lockout);
}

#[test]
fn freeze_between_games() {
    let mut a = AutoSplitter::new(AutoSplitterSettings::default());
    a.state.switching_games = true;
    let cmds = a.update_loop(TimerState::Running, None);
    assert_eq!(cmds, vec![TimerCommand::PauseGameTime]);
    assert!(a.state.was_loading);
    let again = a.update_loop(TimerState::Running, None);
    assert!(again.is_empty());
}

#[test]
fn no_game_ended_resets_state() {
    let mut a = AutoSplitter::new(AutoSplitterSettings::default());
    a.state.switching_games = true;
    a.state.autoreset_lockout = true;
    let cmds = a.update_loop(TimerState::Ended, None);
    assert!(cmds.is_empty());
    assert_eq!(a.state, defaults());
}

#[test]
fn no_game_not_running_is_no_op() {
    let mut a = AutoSplitter::new(AutoSplitterSettings::default());
    a.state.switching_games = true;
    let cmds = a.update_loop(TimerState::NotRunning, None);
    assert!(cmds.is_empty());
    assert!(a.state.switching_games);
    assert!(!a.state.was_loading);
}

#[test]
fn handoff_completes_on_next_start() {
    let mut a = AutoSplitter::new(AutoSplitterSettings::default());
    a.state.switching_games = true;
    a.state.was_loading = true;
    a.state.autoreset_lockout = true;
    let cmds = a.update_loop(TimerState::Running, Some(GameSignals { start: true, ..quiet() }));
    assert_eq!(cmds, vec![TimerCommand::ResumeGameTime]);
    assert!(!a.state.switching_games);
    assert!(!a.state.was_loading);
}

#[test]
fn switching_skips_split_checks() {
    let mut a = AutoSplitter::new(AutoSplitterSettings::default());
    a.state.switching_games = true;
    a.state.was_loading = true;
    let g = GameSignals { split: true, completed: true, ..quiet() };
    let cmds = a.update_loop(TimerState::Running, Some(g));
    assert!(cmds.is_empty());
    assert!(a.state.switching_games);
}

#[test]
fn unknown_loading_keeps_last_state() {
    let mut a = AutoSplitter::new(AutoSplitterSettings::default());
    let g = GameSignals { loading: Some(true), ..quiet() };
    assert_eq!(a.update_loop(TimerState::Running, Some(g)), vec![TimerCommand::PauseGameTime]);
    let g = GameSignals { loading: None, ..quiet() };
    assert!(a.update_loop(TimerState::Running, Some(g)).is_empty());
    assert!(a.state.was_loading);
    let g = GameSignals { loading: Some(false), ..quiet() };
    assert_eq!(a.update_loop(TimerState::Running, Some(g)), vec![TimerCommand::ResumeGameTime]);
    assert!(!a.state.was_loading);
}

#[test]
fn ended_with_game_resets_state() {
    let mut a = AutoSplitter::new(AutoSplitterSettings::default());
    a.state.autoreset_lockout = true;
    let cmds = a.update_loop(TimerState::Ended, Some(GameSignals { split: true, ..quiet() }));
    assert!(cmds.is_empty());
    assert_eq!(a.state, defaults());
}

#[test]
fn unknown_timer_state_is_no_op() {
    let mut a = AutoSplitter::new(AutoSplitterSettings::default());
    a.state.autoreset_lockout = true;
    let g = GameSignals { start: true, reset: true, split: true, completed: true, loading: Some(true) };
    let cmds = a.update_loop(TimerState::Unknown, Some(g));
    assert!(cmds.is_empty());
    assert!(a.state.autoreset_lockout);
}
