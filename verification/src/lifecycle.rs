//! The session lifecycle: menu, level loading, live simulation, editor.

use vstd::prelude::*;

verus! {

/// Sub-state of the menu screen.
#[derive(Clone, Copy, Debug, PartialEq, Eq, Structural)]
pub enum MenuState {
    Main,
    LevelSelect,
}

/// The session state. Exactly one is current at any time. The physics
/// pipeline runs iff the current state is `Game`.
#[derive(Clone, Copy, Debug, PartialEq, Eq, Structural)]
pub enum AppState {
    Menu(MenuState),
    Editor,
    LoadLevel,
    Game,
}

/// Identifier of the level to load next. Process-wide; set before entering
/// `LoadLevel` and read once on entry.
#[derive(Clone, Debug, PartialEq, Eq)]
pub struct LevelProgress {
    pub current_level: Option<String>,
}

/// The pending request to the asset/level loader: nothing, or the path of a
/// level resource to stream in. The loader answers asynchronously by
/// populating level-owned entities; this machine only issues the request.
#[derive(Clone, Debug, PartialEq, Eq)]
pub enum LoadingCommand {
    NoCommand,
    FromAsset(String),
}

/// The one fatal condition of the lifecycle machine: a caller-contract
/// violation, not a recoverable runtime failure. The host is expected to
/// abort on it.
#[derive(Clone, Copy, Debug, PartialEq, Eq, Structural)]
pub enum LifecycleError {
    /// `LoadLevel` was entered while `current_level` was unset.
    MissingCurrentLevel,
}

/// The session as the lifecycle state machine sees it: the current app
/// state, the ids of the entities owned by the currently loaded level, the
/// level-progress pointer, and the pending loader request.
#[derive(Clone, Debug, PartialEq, Eq)]
pub struct Session {
    pub state: AppState,
    pub level_entities: Vec<u64>,
    pub progress: LevelProgress,
    pub loading_command: LoadingCommand,
}

/// The level resource a loader request names, if one is pending.
pub open spec fn loader_request(cmd: LoadingCommand) -> Option<Seq<char>> {
    match cmd {
        LoadingCommand::NoCommand => None,
        LoadingCommand::FromAsset(path) => Some(path@),
    }
}

/// The path of a level resource: the level identifier, namespaced under the
/// levels directory.
pub open spec fn level_asset_path(level: Seq<char>) -> Seq<char> {
    "levels/"@ + level
}

/// Re-derives the physics-enable flag from the session state: the physics
/// pipeline is active iff the current state is exactly `Game`. Runs every
/// tick, not only on transition edges, so the flag self-corrects however
/// the state changed.
pub fn enable_disable_physics(state: &AppState, physics_pipeline_active: &mut bool)
    ensures
        *final(physics_pipeline_active) == (*state is Game),
{
    *physics_pipeline_active = match state {
        AppState::Game => true,
        _ => false,
    };
}

/// Entry handler for the `LoadLevel` state. It despawns every entity owned
/// by the previous level, reads the level-progress pointer, hands the
/// loader a request for the level resource, and moves straight on to
/// `Game` without waiting for the load to finish. Entering with no pending
/// level identifier is a caller-contract violation: the teardown still
/// happens, but no request is issued, the state does not advance, and the
/// fatal error is returned for the host to abort on.
pub fn handle_level_loading(session: &mut Session) -> (r: Result<(), LifecycleError>)
    requires
        old(session).state is LoadLevel,
    ensures
        final(session).level_entities@.len() == 0,
        final(session).progress == old(session).progress,
        r is Err <==> old(session).progress.current_level is None,
        r is Err ==> r == Result::<(), LifecycleError>::Err(LifecycleError::MissingCurrentLevel)
            && final(session).state == old(session).state
            && final(session).loading_command == old(session).loading_command,
        match old(session).progress.current_level {
            Option::Some(lvl) => r is Ok && final(session).state is Game
                && loader_request(final(session).loading_command) == Some(level_asset_path(lvl@)),
            Option::None => r is Err,
        },
{
    session.level_entities = Vec::new();
    let lvl = match &session.progress.current_level {
        Option::None => {
            return Result::Err(LifecycleError::MissingCurrentLevel);
        },
        Option::Some(l) => l.clone(),
    };
    let mut path = String::new();
    path.append("levels/");
    path.append(lvl.as_str());
    proof {
        assert(path@ =~= level_asset_path(lvl@));
    }
    session.loading_command = LoadingCommand::FromAsset(path);
    session.state = AppState::Game;
    Result::Ok(())
}

/// Launch configuration of the whole game: whether the process runs as the
/// level editor, and an optional level to jump to at start-up. Both are
/// fixed for the whole process; the two operating modes never transition
/// into each other at runtime.
pub struct GamePlugin {
    pub is_editor: bool,
    pub start_at_level: Option<String>,
}

/// The resource name of a level requested by name at launch: the name with
/// the level-file suffix.
pub open spec fn level_file_name(name: Seq<char>) -> Seq<char> {
    name + ".yol"@
}

impl GamePlugin {
    /// The state the session starts in: the editor in editor mode, the main
    /// menu otherwise.
    pub fn initial_state(&self) -> (s: AppState)
        ensures
            self.is_editor ==> s is Editor,
            !self.is_editor ==> s == AppState::Menu(MenuState::Main),
    {
        if self.is_editor {
            AppState::Editor
        } else {
            AppState::Menu(MenuState::Main)
        }
    }

    /// The one-shot start-up action of game mode: when a level was requested
    /// at launch, point the level progress at its resource file and force an
    /// immediate transition to `LoadLevel`; otherwise leave the session
    /// alone.
    pub fn startup(&self, session: &mut Session)
        requires
            !self.is_editor,
        ensures
            self.start_at_level is None ==> *final(session) == *old(session),
            match self.start_at_level {
                Option::Some(name) => final(session).state is LoadLevel
                    && (final(session).progress.current_level matches Some(lvl)
                    && lvl@ == level_file_name(name@))
                    && final(session).level_entities == old(session).level_entities
                    && final(session).loading_command == old(session).loading_command,
                Option::None => true,
            },
    {
        match &self.start_at_level {
            Option::None => {},
            Option::Some(name) => {
                let mut file = name.clone();
                file.append(".yol");
                session.progress.current_level = Option::Some(file);
                session.state = AppState::LoadLevel;
            },
        }
    }
}

} // verus!
