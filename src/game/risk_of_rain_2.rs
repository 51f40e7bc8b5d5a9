use vstd::prelude::*;
use vstd::string::StringSliceAdditionalSpecFns;

use crate::autosplitter::GameSignals;
use crate::game::{bytes_equal, has_prefix, starts_with_bytes};
use crate::sample::{is_changed, is_changed_to, is_increased, Pair, Sample};

verus! {

/// The scenes that the splitting rules tell apart; every other scene is `Other`.
#[derive(Clone, Copy, PartialEq, Eq, Structural, Debug)]
pub enum SceneKind {
    /// A regular first stage: a name starting with golemplains, blackbeach,
    /// snowyforest, lakes or village
    FirstStage,
    /// Commencement: a name starting with moon
    Moon,
    Lobby,
    Title,
    Crystalworld,
    Eclipseworld,
    Infinitetowerworld,
    Bazaar,
    Arena,
    Goldshores,
    Artifactworld,
    Outro,
    Limbo,
    Mysteryspace,
    Voidraid,
    Other,
}

/// The kind of the scene with the given name.
pub open spec fn scene_kind_spec(name: Seq<u8>) -> SceneKind {
    if name == "lobby".spec_bytes() {
        SceneKind::Lobby
    } else if name == "title".spec_bytes() {
        SceneKind::Title
    } else if name == "crystalworld".spec_bytes() {
        SceneKind::Crystalworld
    } else if name == "eclipseworld".spec_bytes() {
        SceneKind::Eclipseworld
    } else if name == "infinitetowerworld".spec_bytes() {
        SceneKind::Infinitetowerworld
    } else if name == "bazaar".spec_bytes() {
        SceneKind::Bazaar
    } else if name == "arena".spec_bytes() {
        SceneKind::Arena
    } else if name == "goldshores".spec_bytes() {
        SceneKind::Goldshores
    } else if name == "artifactworld".spec_bytes() {
        SceneKind::Artifactworld
    } else if name == "outro".spec_bytes() {
        SceneKind::Outro
    } else if name == "limbo".spec_bytes() {
        SceneKind::Limbo
    } else if name == "mysteryspace".spec_bytes() {
        SceneKind::Mysteryspace
    } else if name == "voidraid".spec_bytes() {
        SceneKind::Voidraid
    } else if has_prefix(name, "golemplains".spec_bytes()) || has_prefix(name, "blackbeach".spec_bytes())
        || has_prefix(name, "snowyforest".spec_bytes()) || has_prefix(name, "lakes".spec_bytes())
        || has_prefix(name, "village".spec_bytes()) {
        SceneKind::FirstStage
    } else if has_prefix(name, "moon".spec_bytes()) {
        SceneKind::Moon
    } else {
        SceneKind::Other
    }
}

/// Classifies a Unity scene name.
pub fn scene_kind(name: &[u8]) -> (r: SceneKind)
    ensures
        r == scene_kind_spec(name@),
{
    if bytes_equal(name, "lobby".as_bytes()) {
        SceneKind::Lobby
    } else if bytes_equal(name, "title".as_bytes()) {
        SceneKind::Title
    } else if bytes_equal(name, "crystalworld".as_bytes()) {
        SceneKind::Crystalworld
    } else if bytes_equal(name, "eclipseworld".as_bytes()) {
        SceneKind::Eclipseworld
    } else if bytes_equal(name, "infinitetowerworld".as_bytes()) {
        SceneKind::Infinitetowerworld
    } else if bytes_equal(name, "bazaar".as_bytes()) {
        SceneKind::Bazaar
    } else if bytes_equal(name, "arena".as_bytes()) {
        SceneKind::Arena
    } else if bytes_equal(name, "goldshores".as_bytes()) {
        SceneKind::Goldshores
    } else if bytes_equal(name, "artifactworld".as_bytes()) {
        SceneKind::Artifactworld
    } else if bytes_equal(name, "outro".as_bytes()) {
        SceneKind::Outro
    } else if bytes_equal(name, "limbo".as_bytes()) {
        SceneKind::Limbo
    } else if bytes_equal(name, "mysteryspace".as_bytes()) {
        SceneKind::Mysteryspace
    } else if bytes_equal(name, "voidraid".as_bytes()) {
        SceneKind::Voidraid
    } else if starts_with_bytes(name, "golemplains".as_bytes()) || starts_with_bytes(name, "blackbeach".as_bytes())
        || starts_with_bytes(name, "snowyforest".as_bytes()) || starts_with_bytes(name, "lakes".as_bytes())
        || starts_with_bytes(name, "village".as_bytes()) {
        SceneKind::FirstStage
    } else if starts_with_bytes(name, "moon".as_bytes()) {
        SceneKind::Moon
    } else {
        SceneKind::Other
    }
}

impl Sample<SceneKind> {
    pub fn changed(&self) -> (r: bool)
        ensures
            r == is_changed(self.pair),
    {
        match self.pair {
            Some(p) => p.previous != p.latest,
            None => false,
        }
    }
}

/// Risk of Rain 2 Settings
#[derive(Clone, Copy, PartialEq, Eq, Structural, Debug)]
pub struct GameSettings {
    /// Split on stage transitions
    ///
    /// This excludes selected hidden realms and game end conditions
    pub ror2_stages: bool,
    /// Split when leaving Bazaar Between Time
    pub bazaar: bool,
    /// Split when leaving Void Fields
    pub arena: bool,
    /// Split when leaving Gilded Shores
    pub goldshores: bool,
    /// Split when leaving Bulwark's Ambry
    pub artifactworld: bool,
}

/// Game state watchers
#[derive(Clone, Copy)]
pub struct GameVars {
    /// Run.instance.stageClearCount
    ///
    /// Starts at 0 and increments on every regular stage, including after Commencement at the end of a run.
    /// Does not increment on special stages like Bazaar.
    pub stage_count: Sample<i32>,
    /// GameOverController.instance.shouldDisplayGameEndReportPanels
    ///
    /// Invalid until a game end condition is reached (includes dying).
    pub results: Sample<bool>,
    /// Unity scene, by kind
    pub scene: Sample<SceneKind>,
}

pub struct Game {
    pub settings: GameSettings,
    pub game_state: GameVars,
}

/// Start on a regular first stage, on the tick the screen fades in
/// (`fade_in`: the fade value fell below 1.0 from 1.0 or more).
pub open spec fn start_spec(scene: Option<Pair<SceneKind>>, fade_in: bool) -> bool {
    scene is Some && scene->0.latest == SceneKind::FirstStage && fade_in
}

/// Reset on the lobby, the title screen and the other mode menus.
pub open spec fn reset_spec(scene: Option<Pair<SceneKind>>) -> bool {
    scene is Some && match scene->0.latest {
        SceneKind::Lobby | SceneKind::Title | SceneKind::Crystalworld | SceneKind::Eclipseworld
        | SceneKind::Infinitetowerworld => true,
        _ => false,
    }
}

/// Split on leaving a special scene, as its setting allows.
pub open spec fn special_scene_split(settings: GameSettings, scene: Option<Pair<SceneKind>>) -> bool {
    is_changed(scene) && match scene->0.previous {
        SceneKind::Bazaar => settings.bazaar,
        SceneKind::Arena => settings.arena,
        SceneKind::Goldshores => settings.goldshores,
        SceneKind::Artifactworld => settings.artifactworld,
        _ => false,
    }
}

/// The stage count went up to one or more (with stage splits on).
pub open spec fn stage_cleared(settings: GameSettings, stage_count: Option<Pair<i32>>) -> bool {
    settings.ror2_stages && is_increased(stage_count) && stage_count->0.latest >= 1
}

/// Split on a stage count increase (but on Commencement, whose end is the
/// completion), or on leaving a special scene; never on the tick the run
/// completes.
pub open spec fn split_spec(
    settings: GameSettings,
    stage_count: Option<Pair<i32>>,
    scene: Option<Pair<SceneKind>>,
    results: Option<Pair<bool>>,
) -> bool {
    !completed_spec(scene, results) && if stage_cleared(settings, stage_count) {
        match scene {
            Some(p) => p.latest != SceneKind::Moon,
            None => true,
        }
    } else {
        special_scene_split(settings, scene)
    }
}

/// Completed on entering the outro, or when the end-of-game report comes up
/// on an alternative ending's scene.
pub open spec fn completed_spec(scene: Option<Pair<SceneKind>>, results: Option<Pair<bool>>) -> bool {
    scene is Some && (
        (is_changed(scene) && scene->0.latest == SceneKind::Outro)
        || (is_changed_to(results, true) && match scene->0.latest {
            SceneKind::Limbo | SceneKind::Mysteryspace | SceneKind::Voidraid => true,
            _ => false,
        })
    )
}

impl Default for GameSettings {
    /// Every split option starts off.
    fn default() -> (r: Self)
        ensures
            !r.ror2_stages && !r.bazaar && !r.arena && !r.goldshores && !r.artifactworld,
    {
        GameSettings { ror2_stages: false, bazaar: false, arena: false, goldshores: false, artifactworld: false }
    }
}

impl Game {
    /// Process name(s) the game can attach to, in the order to try them
    pub fn process_names(&self) -> (r: Vec<&'static str>)
        ensures
            r@ == seq!["Risk of Rain 2.exe"],
    {
        let r = vec!["Risk of Rain 2.exe"];
        assert(r@ =~= seq!["Risk of Rain 2.exe"]);
        r
    }

    pub fn new(settings: GameSettings) -> (r: Self)
        ensures
            r.settings == settings,
            r.game_state.stage_count.pair is None,
            r.game_state.results.pair is None,
            r.game_state.scene.pair is None,
    {
        Game {
            settings,
            game_state: GameVars { stage_count: Sample::new(), results: Sample::new(), scene: Sample::new() },
        }
    }

    pub fn reset_state(&mut self)
        ensures
            final(self).settings == old(self).settings,
            final(self).game_state.stage_count.pair is None,
            final(self).game_state.results.pair is None,
            final(self).game_state.scene.pair is None,
    {
        self.game_state = GameVars { stage_count: Sample::new(), results: Sample::new(), scene: Sample::new() };
    }

    /// The current scene is a regular first stage, where a run starts.
    pub fn on_first_stage(&self) -> (r: bool)
        ensures
            r == (self.game_state.scene.pair is Some && self.game_state.scene.pair->0.latest == SceneKind::FirstStage),
    {
        match self.game_state.scene.pair {
            Some(scene) => scene.latest == SceneKind::FirstStage,
            None => false,
        }
    }

    /// Reset on certain menu screens
    pub fn reset(&self) -> (r: bool)
        ensures
            r == reset_spec(self.game_state.scene.pair),
    {
        match self.game_state.scene.pair {
            Some(scene) => match scene.latest {
                SceneKind::Lobby | SceneKind::Title | SceneKind::Crystalworld | SceneKind::Eclipseworld
                | SceneKind::Infinitetowerworld => true,
                _ => false,
            },
            None => false,
        }
    }

    /// Split on stage increment, and special scenes, ignoring game end conditions
    pub fn split(&self) -> (r: bool)
        ensures
            r == split_spec(self.settings, self.game_state.stage_count.pair, self.game_state.scene.pair, self.game_state.results.pair),
    {
        if self.completed() {
            return false;
        }
        // stage count increased
        if self.settings.ror2_stages {
            if let Some(stage_count) = self.game_state.stage_count.pair {
                if stage_count.latest >= 1 && self.game_state.stage_count.increased() {
                    // avoid double splits on Commencement
                    return match self.game_state.scene.pair {
                        Some(scene) => scene.latest != SceneKind::Moon,
                        None => true,
                    };
                }
            }
        }
        if let Some(scene) = self.game_state.scene.pair {
            // reached a special scene
            if self.game_state.scene.changed() {
                match scene.previous {
                    SceneKind::Bazaar => return self.settings.bazaar,
                    SceneKind::Arena => return self.settings.arena,
                    SceneKind::Goldshores => return self.settings.goldshores,
                    SceneKind::Artifactworld => return self.settings.artifactworld,
                    _ => {},
                }
            }
        }
        false
    }

    /// Completed when the scene is the outro cutscene or if the game end was triggered for CE/SotV alt endings.
    pub fn completed(&self) -> (r: bool)
        ensures
            r == completed_spec(self.game_state.scene.pair, self.game_state.results.pair),
    {
        if let Some(scene) = self.game_state.scene.pair {
            if self.game_state.scene.changed() && scene.latest == SceneKind::Outro {
                return true;
            }
            // completed a run on specific scenes
            if self.game_state.results.changed_to(true) {
                match scene.latest {
                    SceneKind::Limbo | SceneKind::Mysteryspace | SceneKind::Voidraid => return true,
                    _ => {},
                }
            }
        }
        false
    }

    /// Start on regular Stage 1s during fade-in
    pub fn start(&self, fade_in: bool) -> (r: bool)
        ensures
            r == start_spec(self.game_state.scene.pair, fade_in),
    {
        self.on_first_stage() && fade_in
    }

    /// What this game reports to the autosplitter on this tick, given whether
    /// the screen is fading in and the loading state, both read from the
    /// screen fade.
    pub fn signals(&self, fade_in: bool, loading: Option<bool>) -> (r: GameSignals)
        ensures
            r.start == start_spec(self.game_state.scene.pair, fade_in),
            r.reset == reset_spec(self.game_state.scene.pair),
            r.split == split_spec(self.settings, self.game_state.stage_count.pair, self.game_state.scene.pair, self.game_state.results.pair),
            r.completed == completed_spec(self.game_state.scene.pair, self.game_state.results.pair),
            r.loading == loading,
    {
        GameSignals {
            start: self.start(fade_in),
            reset: self.reset(),
            split: self.split(),
            completed: self.completed(),
            loading,
        }
    }
}

/// A tick never reports both a split and the run's completion.
pub proof fn lemma_split_excludes_completion(
    settings: GameSettings,
    stage_count: Option<Pair<i32>>,
    scene: Option<Pair<SceneKind>>,
    results: Option<Pair<bool>>,
)
    ensures
        !(split_spec(settings, stage_count, scene, results) && completed_spec(scene, results)),
{
}

} // verus!
