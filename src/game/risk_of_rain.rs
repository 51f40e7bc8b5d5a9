use vstd::prelude::*;

use crate::autosplitter::GameSignals;
use crate::sample::{is_changed, is_changed_from_to, Pair, Sample};

verus! {

// room ids:
// 0 => white screen pre-intro
// 1 => Hopoo games logo screen
// 9, 10, 11, 12, 13, 14 => intro cutscene
// 2 => main menu
// 3 => Item Log
// 4 => Monster Log
// 5 => Scores and Unlockables
// 39 => Start online co-op menu
//
// 6 => Single player lobby
// 7 => Local co-op lobby
// 40 => Online co-op lobby
//
// 18-38 => Stages & variants
// 41 => Contact Light
//
// 16 => Outro cutscene pt1: cinematic
// 17 => Outro cutscene pt2: character ending
// 15 => Credits

/// Menus, logos and cutscenes.
pub open spec fn is_menu_room_spec(room: i32) -> bool {
    0 <= room <= 5 || 9 <= room <= 17 || room == 39
}

/// Single player, local co-op and online co-op lobbies.
pub open spec fn is_lobby_room_spec(room: i32) -> bool {
    room == 6 || room == 7 || room == 40
}

pub fn is_menu_room(room: i32) -> (r: bool)
    ensures
        r == is_menu_room_spec(room),
{
    (0 <= room && room <= 5) || (9 <= room && room <= 17) || room == 39
}

pub fn is_lobby_room(room: i32) -> (r: bool)
    ensures
        r == is_lobby_room_spec(room),
{
    room == 6 || room == 7 || room == 40
}

/// Risk of Rain Settings
#[derive(Clone, Copy, PartialEq, Eq, Structural, Debug)]
pub struct GameSettings {
    /// Split on stage transitions
    pub ror1_stages: bool,
}

/// Game state watchers
#[derive(Clone, Copy)]
pub struct GameVars {
    /// GameMaker room ID
    pub room: Sample<i32>,
    /// Control Panel activated after the Providence fight
    ///
    /// This variable is only active on the final stage
    pub run_end_flag: Sample<i32>,
}

/// Only supports v1.2.2
pub struct Game {
    pub settings: GameSettings,
    pub game_state: GameVars,
}

/// Start when entering a game from a lobby.
pub open spec fn start_spec(room: Option<Pair<i32>>) -> bool {
    is_changed(room) && is_lobby_room_spec(room->0.previous) && !is_menu_room_spec(room->0.latest)
}

/// Reset on the main menu or the online co-op lobby.
pub open spec fn reset_spec(room: Option<Pair<i32>>) -> bool {
    room is Some && (room->0.latest == 2 || room->0.latest == 40)
}

/// Split on a stage change that neither leaves nor enters a menu or lobby,
/// unless the run completes on this tick.
pub open spec fn split_spec(settings: GameSettings, room: Option<Pair<i32>>, run_end_flag: Option<Pair<i32>>) -> bool {
    is_changed(room) && settings.ror1_stages && !(is_menu_room_spec(room->0.previous)
        || is_menu_room_spec(room->0.latest) || is_lobby_room_spec(room->0.previous)
        || is_lobby_room_spec(room->0.latest)) && !completed_spec(room, run_end_flag)
}

/// Completed when the console is activated on Contact Light.
pub open spec fn completed_spec(room: Option<Pair<i32>>, run_end_flag: Option<Pair<i32>>) -> bool {
    room is Some && run_end_flag is Some && room->0.latest == 41 && is_changed_from_to(run_end_flag, 0, 1)
}

impl Default for GameSettings {
    /// Every split option starts off.
    fn default() -> (r: Self)
        ensures
            r.ror1_stages == false,
    {
        GameSettings { ror1_stages: false }
    }
}

impl Game {
    /// Process name(s) the game can attach to, in the order to try them
    pub fn process_names(&self) -> (r: Vec<&'static str>)
        ensures
            r@ == seq!["ROR_GMS_controller.exe", "Risk of Rain.exe"],
    {
        let r = vec!["ROR_GMS_controller.exe", "Risk of Rain.exe"];
        assert(r@ =~= seq!["ROR_GMS_controller.exe", "Risk of Rain.exe"]);
        r
    }

    pub fn new(settings: GameSettings) -> (r: Self)
        ensures
            r.settings == settings,
            r.game_state.room.pair is None,
            r.game_state.run_end_flag.pair is None,
    {
        Game { settings, game_state: GameVars { room: Sample::new(), run_end_flag: Sample::new() } }
    }

    pub fn reset_state(&mut self)
        ensures
            final(self).settings == old(self).settings,
            final(self).game_state.room.pair is None,
            final(self).game_state.run_end_flag.pair is None,
    {
        self.game_state = GameVars { room: Sample::new(), run_end_flag: Sample::new() };
    }

    /// Start when entering a game from a lobby
    ///
    /// Simply checks that the room ID went from a lobby to a non-menu/cutscene/lobby room
    pub fn start(&self) -> (r: bool)
        ensures
            r == start_spec(self.game_state.room.pair),
    {
        match self.game_state.room.pair {
            Some(room) => self.game_state.room.changed() && is_lobby_room(room.previous) && !is_menu_room(room.latest),
            None => false,
        }
    }

    /// Reset when entering the main menu or lobby
    ///
    /// Specifically detect room IDs 2 (rStart) and 40 (rSelectMult)
    pub fn reset(&self) -> (r: bool)
        ensures
            r == reset_spec(self.game_state.room.pair),
    {
        match self.game_state.room.pair {
            Some(room) => room.latest == 2 || room.latest == 40,
            None => false,
        }
    }

    /// Split on stage change, never on the tick the run completes
    pub fn split(&self) -> (r: bool)
        ensures
            r == split_spec(self.settings, self.game_state.room.pair, self.game_state.run_end_flag.pair),
    {
        match self.game_state.room.pair {
            Some(room) => {
                if self.game_state.room.changed() {
                    // Don't split when returning to/from the lobby or after rebooting the game
                    self.settings.ror1_stages && !(is_menu_room(room.previous) || is_menu_room(room.latest)
                        || is_lobby_room(room.previous) || is_lobby_room(room.latest)) && !self.completed()
                } else {
                    false
                }
            },
            None => false,
        }
    }

    /// Completed on reaching the outro cutscene
    ///
    /// Detects activating the console in room ID 41 (r6_1_1)
    pub fn completed(&self) -> (r: bool)
        ensures
            r == completed_spec(self.game_state.room.pair, self.game_state.run_end_flag.pair),
    {
        match (self.game_state.room.pair, self.game_state.run_end_flag.pair) {
            (Some(room), Some(_)) => room.latest == 41 && self.game_state.run_end_flag.changed_from_to(0, 1),
            _ => false,
        }
    }

    /// No load removal (always false)
    pub fn is_loading(&self) -> (r: Option<bool>)
        ensures
            r == Some(false),
    {
        Some(false)
    }

    /// What this game reports to the autosplitter on this tick.
    pub fn signals(&self) -> (r: GameSignals)
        ensures
            r.start == start_spec(self.game_state.room.pair),
            r.reset == reset_spec(self.game_state.room.pair),
            r.split == split_spec(self.settings, self.game_state.room.pair, self.game_state.run_end_flag.pair),
            r.completed == completed_spec(self.game_state.room.pair, self.game_state.run_end_flag.pair),
            r.loading == Some(false),
    {
        GameSignals {
            start: self.start(),
            reset: self.reset(),
            split: self.split(),
            completed: self.completed(),
            loading: self.is_loading(),
        }
    }
}

/// A tick never reports both a split and the run's completion.
pub proof fn lemma_split_excludes_completion(settings: GameSettings, room: Option<Pair<i32>>, run_end_flag: Option<Pair<i32>>)
    ensures
        !(split_spec(settings, room, run_end_flag) && completed_spec(room, run_end_flag)),
{
}

/// Purely for documentation's sake: the room IDs, in order from 0
#[allow(non_camel_case_types)]
pub enum Room {
    /// White Screen
    rInit,
    /// Hopoo Games logo
    rLogo,
    /// Main Menu
    rStart,
    /// Item Log
    rStorage,
    /// Monster Log
    rBook,
    /// Scores and Unlockables
    rHighscore,
    /// Single Player Lobby
    rSelect,
    /// Local Co-Op Lobby
    rSelectCoop,
    /// Unused?
    rIntro,
    /// Intro Cutscene
    rCutscene1,
    /// Intro Cutscene
    rCutscene2,
    /// Intro Cutscene
    rCutscene3,
    /// Intro Cutscene
    rCutscene4,
    /// Intro Cutscene
    rCutscene5,
    /// Intro Cutscene
    rCutscene6,
    /// Game Credits
    rCredits,
    /// Outro Cutscene
    r2Cutscene2,
    /// Outro Cutscene
    r2Cutscene3,
    r1_1_1, r1_1_2, r1_1_3,
    r1_2_1, r1_2_2, r1_2_3,
    r2_1_1, r2_1_2,
    r2_2_1, r2_2_2,
    r3_1_1, r3_1_2,
    rPigbeach,
    r3_2_1, r3_2_2,
    r4_1_1, r4_1_2,
    r4_2_1, r4_2_2,
    r5_1_1, r5_1_2,
    /// Online Co-Op Host/Join screen
    rHost,
    /// Online Co-Op Lobby
    rSelectMult,
    /// UES Contact Light
    r6_1_1,
}

} // verus!
