use vstd::prelude::*;
use crate::platform::{chmod_spec, permission_fix_command, CommandLine, CommandSpec, Platform};
use crate::registry::ProcessRegistry;

verus! {

/// Where a game launch stands.
#[derive(Clone, Copy, Debug, PartialEq, Eq, Structural)]
pub enum LaunchStage {
    /// The executable permission is still to be set (POSIX only).
    FixingPermission,
    /// The executable is ready to be spawned.
    Spawning,
    /// The game was spawned and is tracked.
    Launched,
    /// The launch stopped on an error; nothing was tracked.
    Failed,
}

/// What the host must do next for a launch.
#[derive(Debug)]
pub enum LaunchAction {
    /// Run this command and report whether it could be run.
    FixPermission(CommandLine),
    /// Spawn the executable at this path and report the handle or the error.
    Spawn(String),
    /// Nothing is left to do.
    Finished,
}

/// The mathematical value of a `LaunchAction`.
pub enum LaunchStep {
    FixPermission(CommandSpec),
    Spawn(Seq<char>),
    Finished,
}

impl View for LaunchAction {
    type V = LaunchStep;

    open spec fn view(&self) -> LaunchStep {
        match self {
            LaunchAction::FixPermission(c) => LaunchStep::FixPermission(c@),
            LaunchAction::Spawn(p) => LaunchStep::Spawn(p@),
            LaunchAction::Finished => LaunchStep::Finished,
        }
    }
}

/// One request to start the game executable at `path`.
pub struct GameLaunch {
    pub path: String,
    pub stage: LaunchStage,
}

/// The stage a launch starts in.
pub open spec fn first_stage(platform: Platform) -> LaunchStage {
    if platform == Platform::Posix {
        LaunchStage::FixingPermission
    } else {
        LaunchStage::Spawning
    }
}

/// The action owed at `stage` for the executable at `path`.
pub open spec fn action_at(stage: LaunchStage, path: Seq<char>) -> LaunchStep {
    match stage {
        LaunchStage::FixingPermission => LaunchStep::FixPermission(chmod_spec(path)),
        LaunchStage::Spawning => LaunchStep::Spawn(path),
        _ => LaunchStep::Finished,
    }
}

/// The stage after the permission fix-up, by whether it could be run.
pub open spec fn after_permission(ok: bool) -> LaunchStage {
    if ok {
        LaunchStage::Spawning
    } else {
        LaunchStage::Failed
    }
}

/// The error reported when the permission fix-up could not be run.
pub open spec fn permission_error(reason: Seq<char>) -> Seq<char> {
    "Failed to set executable permission: "@ + reason
}

/// The error reported when the executable could not be spawned.
pub open spec fn spawn_error(reason: Seq<char>) -> Seq<char> {
    "Failed to execute game: "@ + reason
}

/// The confirmation reported for a game that was launched.
pub open spec fn launched_message(path: Seq<char>) -> Seq<char> {
    "Game launched: "@ + path
}

impl GameLaunch {
    /// Starts a launch of the executable at `path`.
    pub fn new(platform: Platform, path: String) -> (r: GameLaunch)
        ensures
            r.path@ == path@,
            r.stage == first_stage(platform),
    {
        let stage = if platform.needs_permission_fix() {
            LaunchStage::FixingPermission
        } else {
            LaunchStage::Spawning
        };
        GameLaunch { path, stage }
    }

    /// The action the host must perform next.
    pub fn next_action(&self) -> (r: LaunchAction)
        ensures
            r@ == action_at(self.stage, self.path@),
    {
        match self.stage {
            LaunchStage::FixingPermission => LaunchAction::FixPermission(
                permission_fix_command(&self.path),
            ),
            LaunchStage::Spawning => LaunchAction::Spawn(self.path.clone()),
            _ => LaunchAction::Finished,
        }
    }

    /// Takes the outcome of the permission fix-up. On failure the launch
    /// stops and no spawn is ever asked for.
    pub fn permission_fixed(&mut self, outcome: Result<(), String>) -> (r: Result<(), String>)
        requires
            old(self).stage == LaunchStage::FixingPermission,
        ensures
            final(self).path == old(self).path,
            final(self).stage == after_permission(outcome is Ok),
            outcome is Ok ==> r is Ok,
            outcome is Err ==> r is Err && r->Err_0@ == permission_error(outcome->Err_0@),
    {
        match outcome {
            Ok(()) => {
                self.stage = LaunchStage::Spawning;
                Ok(())
            },
            Err(e) => {
                self.stage = LaunchStage::Failed;
                Err(String::from_str("Failed to set executable permission: ").concat(e.as_str()))
            },
        }
    }

    /// Takes the outcome of the spawn. A spawned game is tracked in the
    /// registry; on failure the registry is left as it was.
    pub fn spawned<G, D>(&mut self, registry: &mut ProcessRegistry<G, D>, outcome: Result<G, String>) -> (r: Result<String, String>)
        requires
            old(self).stage == LaunchStage::Spawning,
        ensures
            final(self).path == old(self).path,
            outcome is Ok ==> final(self).stage == LaunchStage::Launched && final(registry)@
                == old(registry)@.registered(outcome->Ok_0) && r is Ok && r->Ok_0@
                == launched_message(old(self).path@),
            outcome is Err ==> final(self).stage == LaunchStage::Failed && final(registry)@
                == old(registry)@ && r is Err && r->Err_0@ == spawn_error(outcome->Err_0@),
    {
        match outcome {
            Ok(h) => {
                registry.register_game(h);
                self.stage = LaunchStage::Launched;
                Ok(String::from_str("Game launched: ").concat(self.path.as_str()))
            },
            Err(e) => {
                self.stage = LaunchStage::Failed;
                Err(String::from_str("Failed to execute game: ").concat(e.as_str()))
            },
        }
    }
}

/// On POSIX a launch first asks for the permission fix-up; if that fails,
/// the launch has failed and the next action is to stop, never to spawn.
/// Only a spawn outcome touches the registry, so it stays as it was.
pub proof fn lemma_permission_failure_prevents_spawn(path: Seq<char>)
    ensures
        action_at(first_stage(Platform::Posix), path) == LaunchStep::FixPermission(chmod_spec(path)),
        after_permission(false) == LaunchStage::Failed,
        action_at(after_permission(false), path) == LaunchStep::Finished,
{
}

} // verus!
