use vstd::prelude::*;

verus! {

/// Lifecycle of the external timer, as the host reports it.
#[derive(Clone, Copy, PartialEq, Eq, Structural, Debug)]
pub enum TimerState {
    NotRunning,
    Running,
    Paused,
    Ended,
    Unknown,
}

/// A command for the external timer.
#[derive(Clone, Copy, PartialEq, Eq, Structural, Debug)]
pub enum TimerCommand {
    Start,
    Split,
    Reset,
    PauseGameTime,
    ResumeGameTime,
    /// Sets the game time to zero right after a start.
    InitializeGameTime,
}

/// What the attached game reports on this tick.
#[derive(Clone, Copy, PartialEq, Eq, Structural, Debug)]
pub struct GameSignals {
    /// The run begins now.
    pub start: bool,
    /// The game is back at its starting point.
    pub reset: bool,
    /// An intermediate split is due (never the completion itself).
    pub split: bool,
    /// The game's run is finished.
    pub completed: bool,
    /// Game time should be frozen; `None` when this cannot be told.
    pub loading: Option<bool>,
}

/// User settings, read on every tick and never changed here.
#[derive(Clone, Copy, PartialEq, Eq, Structural, Debug)]
pub struct AutoSplitterSettings {
    /// Allow the autosplitter to start the timer automatically
    pub start: bool,
    /// Allow the autosplitter to split automatically
    pub split: bool,
    /// Allow the autosplitter to reset automatically
    ///
    /// Automatic resets are disabled after the first split even if splitting is disabled
    pub reset: bool,
}

/// Timer state for update loop
#[derive(Clone, Copy, PartialEq, Eq, Structural, Debug)]
pub struct AutoSplitterState {
    /// For tracking timer pause between games
    pub switching_games: bool,
    /// Avoids unwanted resets
    pub autoreset_lockout: bool,
    /// Prevents flooding the runtime with pause/resume commands
    pub was_loading: bool,
}

pub struct AutoSplitter {
    pub settings: AutoSplitterSettings,
    pub state: AutoSplitterState,
}

pub open spec fn default_state() -> AutoSplitterState {
    AutoSplitterState { switching_games: false, autoreset_lockout: false, was_loading: false }
}

pub open spec fn default_settings() -> AutoSplitterSettings {
    AutoSplitterSettings { start: true, split: true, reset: true }
}

impl Default for AutoSplitterSettings {
    fn default() -> (r: Self)
        ensures
            r == default_settings(),
    {
        AutoSplitterSettings { start: true, split: true, reset: true }
    }
}

impl Default for AutoSplitterState {
    fn default() -> (r: Self)
        ensures
            r == default_state(),
    {
        AutoSplitterState { switching_games: false, autoreset_lockout: false, was_loading: false }
    }
}

/// An automatic reset is due.
pub open spec fn reset_due(settings: AutoSplitterSettings, s: AutoSplitterState, g: GameSignals) -> bool {
    g.reset && !s.autoreset_lockout && settings.reset
}

/// Split and completion check; skipped while switching games.
pub open spec fn split_step(settings: AutoSplitterSettings, s: AutoSplitterState, g: GameSignals) -> (AutoSplitterState, Seq<TimerCommand>) {
    if s.switching_games {
        (s, seq![])
    } else if g.completed {
        (AutoSplitterState { autoreset_lockout: true, switching_games: true, ..s }, seq![TimerCommand::Split])
    } else if g.split {
        (
            AutoSplitterState { autoreset_lockout: true, ..s },
            if settings.split { seq![TimerCommand::Split] } else { seq![] },
        )
    } else {
        (s, seq![])
    }
}

/// Ends a game switch once the incoming game reports its start.
pub open spec fn handoff_step(s: AutoSplitterState, g: GameSignals) -> AutoSplitterState {
    if s.switching_games && g.start {
        AutoSplitterState { switching_games: false, ..s }
    } else {
        s
    }
}

/// Whether game time should be frozen, given the state after the earlier steps.
pub open spec fn effective_loading(s: AutoSplitterState, g: GameSignals) -> bool {
    s.switching_games || match g.loading {
        Some(b) => b,
        None => s.was_loading,
    }
}

/// Freezes or resumes game time when the loading state flips.
pub open spec fn load_step(s: AutoSplitterState, loading: bool) -> (AutoSplitterState, Seq<TimerCommand>) {
    if loading && !s.was_loading {
        (AutoSplitterState { was_loading: true, ..s }, seq![TimerCommand::PauseGameTime])
    } else if !loading && s.was_loading {
        (AutoSplitterState { was_loading: false, ..s }, seq![TimerCommand::ResumeGameTime])
    } else {
        (s, seq![])
    }
}

/// One tick while the timer runs or is paused and a game is attached.
pub open spec fn running_tick(settings: AutoSplitterSettings, s: AutoSplitterState, g: GameSignals) -> (AutoSplitterState, Seq<TimerCommand>) {
    if reset_due(settings, s, g) {
        (default_state(), seq![TimerCommand::Reset])
    } else {
        let (s1, c1) = split_step(settings, s, g);
        let s2 = handoff_step(s1, g);
        let (s3, c3) = load_step(s2, effective_loading(s2, g));
        (s3, c1 + c3)
    }
}

/// The new state and the commands of one tick.
pub open spec fn tick(settings: AutoSplitterSettings, s: AutoSplitterState, timer: TimerState, game: Option<GameSignals>) -> (AutoSplitterState, Seq<TimerCommand>) {
    match game {
        None => match timer {
            TimerState::Running | TimerState::Paused => {
                if s.switching_games && !s.was_loading {
                    (AutoSplitterState { was_loading: true, ..s }, seq![TimerCommand::PauseGameTime])
                } else {
                    (s, seq![])
                }
            },
            TimerState::Ended => (default_state(), seq![]),
            _ => (s, seq![]),
        },
        Some(g) => match timer {
            TimerState::NotRunning => {
                if g.start {
                    (
                        default_state(),
                        if settings.start {
                            seq![TimerCommand::Start, TimerCommand::InitializeGameTime]
                        } else {
                            seq![]
                        },
                    )
                } else {
                    (s, seq![])
                }
            },
            TimerState::Running | TimerState::Paused => running_tick(settings, s, g),
            TimerState::Ended => (default_state(), seq![]),
            TimerState::Unknown => (s, seq![]),
        },
    }
}

impl AutoSplitter {
    pub fn new(settings: AutoSplitterSettings) -> (r: Self)
        ensures
            r.settings == settings,
            r.state == default_state(),
    {
        AutoSplitter { settings, state: AutoSplitterState::default() }
    }

    fn reset_state(&mut self)
        ensures
            final(self).state == default_state(),
            final(self).settings == old(self).settings,
    {
        self.state = AutoSplitterState::default();
    }

    /// Baseline for the game time right after a start: the host's game time
    /// may otherwise begin a fraction of a millisecond early.
    fn initialize_game_time_workaround(cmds: &mut Vec<TimerCommand>)
        ensures
            final(cmds)@ == old(cmds)@.push(TimerCommand::InitializeGameTime),
    {
        cmds.push(TimerCommand::InitializeGameTime);
    }

    fn should_start(game: &GameSignals) -> (r: bool)
        ensures
            r == game.start,
    {
        game.start
    }

    fn should_reset(&self, game: &GameSignals) -> (r: bool)
        ensures
            r == (!self.state.autoreset_lockout && game.reset),
    {
        !self.state.autoreset_lockout && game.reset
    }

    fn should_split(game: &GameSignals) -> (r: bool)
        ensures
            r == game.split,
    {
        game.split
    }

    fn game_completed(game: &GameSignals) -> (r: bool)
        ensures
            r == game.completed,
    {
        game.completed
    }

    fn is_loading(&self, game: &GameSignals) -> (r: bool)
        ensures
            r == effective_loading(self.state, *game),
    {
        self.state.switching_games || match game.loading {
            Some(b) => b,
            None => self.state.was_loading,
        }
    }

    /// Splitting logic; runs once per tick, with the attached game's signals
    /// or with `None` while no game is attached. Returns the commands for the
    /// timer, in order.
    pub fn update_loop(&mut self, timer: TimerState, game: Option<GameSignals>) -> (cmds: Vec<TimerCommand>)
        ensures
            final(self).settings == old(self).settings,
            final(self).state == tick(old(self).settings, old(self).state, timer, game).0,
            cmds@ == tick(old(self).settings, old(self).state, timer, game).1,
    {
        let mut cmds: Vec<TimerCommand> = Vec::new();
        match game {
            None => {
                match timer {
                    TimerState::Running | TimerState::Paused => {
                        if self.state.switching_games && !self.state.was_loading {
                            cmds.push(TimerCommand::PauseGameTime);
                            self.state.was_loading = true;
                        }
                    },
                    TimerState::Ended => {
                        self.reset_state();
                    },
                    _ => {},
                }
            },
            Some(g) => {
                match timer {
                    TimerState::NotRunning => {
                        if Self::should_start(&g) {
                            if self.settings.start {
                                cmds.push(TimerCommand::Start);
                                Self::initialize_game_time_workaround(&mut cmds);
                            }
                            self.reset_state();
                        }
                    },
                    TimerState::Running | TimerState::Paused => {
                        if self.should_reset(&g) && self.settings.reset {
                            cmds.push(TimerCommand::Reset);
                            self.reset_state();
                            return cmds;
                        }
                        if !self.state.switching_games {
                            if Self::game_completed(&g) {
                                cmds.push(TimerCommand::Split);
                                self.state.autoreset_lockout = true;
                                self.state.switching_games = true;
                            } else if Self::should_split(&g) {
                                if self.settings.split {
                                    cmds.push(TimerCommand::Split);
                                }
                                self.state.autoreset_lockout = true;
                            }
                        }
                        if self.state.switching_games && Self::should_start(&g) {
                            self.state.switching_games = false;
                        }
                        if self.is_loading(&g) {
                            if !self.state.was_loading {
                                cmds.push(TimerCommand::PauseGameTime);
                                self.state.was_loading = true;
                            }
                        } else {
                            if self.state.was_loading {
                                cmds.push(TimerCommand::ResumeGameTime);
                                self.state.was_loading = false;
                            }
                        }
                    },
                    TimerState::Ended => {
                        self.reset_state();
                    },
                    TimerState::Unknown => {},
                }
            },
        }
        cmds
    }
}

/// How many times `c` occurs in `cmds`.
pub open spec fn count_of(cmds: Seq<TimerCommand>, c: TimerCommand) -> nat
    decreases cmds.len(),
{
    if cmds.len() == 0 {
        0
    } else {
        count_of(cmds.drop_last(), c) + if cmds.last() == c { 1nat } else { 0nat }
    }
}

proof fn lemma_count_of_pair(a: TimerCommand, b: TimerCommand, c: TimerCommand)
    ensures
        count_of(seq![a], c) == if a == c { 1nat } else { 0nat },
        count_of(seq![a, b], c) == count_of(seq![a], c) + if b == c { 1nat } else { 0nat },
{
    assert(seq![a].drop_last() =~= Seq::<TimerCommand>::empty());
    assert(seq![a, b].drop_last() =~= seq![a]);
    assert(count_of(Seq::<TimerCommand>::empty(), c) == 0);
}

/// With the timer not running, a game that reports its start starts the
/// timer and zeroes the game time (when automatic starts are allowed), and the
/// runtime state goes back to its defaults.
pub proof fn lemma_start_when_not_running(settings: AutoSplitterSettings, s: AutoSplitterState, g: GameSignals)
    requires
        g.start,
        settings.start,
    ensures
        tick(settings, s, TimerState::NotRunning, Some(g)) == (
            default_state(),
            seq![TimerCommand::Start, TimerCommand::InitializeGameTime],
        ),
        count_of(tick(settings, s, TimerState::NotRunning, Some(g)).1, TimerCommand::Start) == 1,
        count_of(tick(settings, s, TimerState::NotRunning, Some(g)).1, TimerCommand::InitializeGameTime) == 1,
{
    lemma_count_of_pair(TimerCommand::Start, TimerCommand::InitializeGameTime, TimerCommand::Start);
    lemma_count_of_pair(TimerCommand::Start, TimerCommand::InitializeGameTime, TimerCommand::InitializeGameTime);
}

/// While the timer runs and no game switch is under way, a completed game
/// gives exactly one split, whether or not automatic splits are allowed, and
/// arms both the reset lockout and the game switch. This holds unless a reset
/// comes first, or the same tick already reports the next start (which ends
/// the switch at once).
pub proof fn lemma_completion_splits_once(settings: AutoSplitterSettings, s: AutoSplitterState, g: GameSignals)
    requires
        g.completed,
        !g.start,
        !s.switching_games,
        !reset_due(settings, s, g),
    ensures
        count_of(tick(settings, s, TimerState::Running, Some(g)).1, TimerCommand::Split) == 1,
        tick(settings, s, TimerState::Running, Some(g)).0.autoreset_lockout,
        tick(settings, s, TimerState::Running, Some(g)).0.switching_games,
{
    lemma_count_of_pair(TimerCommand::Split, TimerCommand::PauseGameTime, TimerCommand::Split);
    let (s1, c1) = split_step(settings, s, g);
    let (s3, c3) = load_step(s1, true);
    if s.was_loading {
        assert(c1 + c3 =~= seq![TimerCommand::Split]);
    } else {
        assert(c1 + c3 =~= seq![TimerCommand::Split, TimerCommand::PauseGameTime]);
    }
}

/// Once the reset lockout is armed, a running timer is never reset
/// automatically.
pub proof fn lemma_lockout_blocks_reset(settings: AutoSplitterSettings, s: AutoSplitterState, g: GameSignals)
    requires
        s.autoreset_lockout,
    ensures
        count_of(tick(settings, s, TimerState::Running, Some(g)).1, TimerCommand::Reset) == 0,
{
    let (s1, c1) = split_step(settings, s, g);
    let s2 = handoff_step(s1, g);
    let (s3, c3) = load_step(s2, effective_loading(s2, g));
    lemma_count_of_pair(TimerCommand::Split, TimerCommand::PauseGameTime, TimerCommand::Reset);
    lemma_count_of_pair(TimerCommand::Split, TimerCommand::ResumeGameTime, TimerCommand::Reset);
    lemma_count_of_pair(TimerCommand::PauseGameTime, TimerCommand::PauseGameTime, TimerCommand::Reset);
    lemma_count_of_pair(TimerCommand::ResumeGameTime, TimerCommand::PauseGameTime, TimerCommand::Reset);
    assert(count_of(Seq::<TimerCommand>::empty(), TimerCommand::Reset) == 0);
    if c1.len() == 0 {
        assert(c1 + c3 =~= c3);
    } else if c3.len() == 0 {
        assert(c1 + c3 =~= c1);
    } else {
        assert(c1 + c3 =~= seq![c1[0], c3[0]]);
    }
}

/// With no game attached during a game switch, a running timer gets its game
/// time frozen exactly once.
pub proof fn lemma_freeze_between_games(settings: AutoSplitterSettings, s: AutoSplitterState)
    requires
        s.switching_games,
        !s.was_loading,
    ensures
        tick(settings, s, TimerState::Running, None).1 == seq![TimerCommand::PauseGameTime],
        tick(settings, s, TimerState::Running, None).0 == (AutoSplitterState { was_loading: true, ..s }),
        count_of(tick(settings, s, TimerState::Running, None).1, TimerCommand::PauseGameTime) == 1,
{
    lemma_count_of_pair(TimerCommand::PauseGameTime, TimerCommand::PauseGameTime, TimerCommand::PauseGameTime);
}

} // verus!
