use vstd::prelude::*;
use crate::platform::{graceful_termination_command, termination_spec, CommandLine, CommandSpec, Platform};
use crate::registry::{DaemonEntry, ProcessRegistry, RegistryView};

verus! {

/// How long the host waits, in milliseconds, after the Windows tree-kill
/// request before it force-kills the daemon.
pub const DAEMON_GRACE_MILLIS: u64 = 500;

/// One step of the shutdown sequence, for the host to perform in order.
/// A failed step is logged and the sequence goes on.
#[derive(Debug)]
pub enum ShutdownAction {
    /// Terminate the drained game handle at this index.
    KillGame(usize),
    /// Run this external command to ask the daemon to terminate.
    RequestDaemonTermination(CommandLine),
    /// Wait this many milliseconds.
    Pause(u64),
    /// Terminate the drained daemon handle directly.
    ForceKillDaemon,
}

/// The mathematical value of a `ShutdownAction`.
pub enum ShutdownStep {
    KillGame(nat),
    RequestDaemonTermination(CommandSpec),
    Pause(nat),
    ForceKillDaemon,
}

impl View for ShutdownAction {
    type V = ShutdownStep;

    open spec fn view(&self) -> ShutdownStep {
        match self {
            ShutdownAction::KillGame(i) => ShutdownStep::KillGame(*i as nat),
            ShutdownAction::RequestDaemonTermination(c) => ShutdownStep::RequestDaemonTermination(c@),
            ShutdownAction::Pause(ms) => ShutdownStep::Pause(*ms as nat),
            ShutdownAction::ForceKillDaemon => ShutdownStep::ForceKillDaemon,
        }
    }
}

/// The steps that a sequence of actions stands for.
pub open spec fn steps_of(actions: Seq<ShutdownAction>) -> Seq<ShutdownStep> {
    actions.map_values(|a: ShutdownAction| a@)
}

/// One termination attempt per game handle, in launch order.
pub open spec fn game_kills(n: nat) -> Seq<ShutdownStep> {
    Seq::new(n, |i: int| ShutdownStep::KillGame(i as nat))
}

/// The daemon's part of shutdown: a graceful request, on Windows a pause,
/// then a forced kill whatever the request's outcome.
pub open spec fn daemon_steps(daemon_pid: Option<u32>, platform: Platform) -> Seq<ShutdownStep> {
    match daemon_pid {
        None => Seq::empty(),
        Some(pid) => match platform {
            Platform::Posix => seq![
                ShutdownStep::RequestDaemonTermination(termination_spec(platform, pid)),
                ShutdownStep::ForceKillDaemon,
            ],
            Platform::Windows => seq![
                ShutdownStep::RequestDaemonTermination(termination_spec(platform, pid)),
                ShutdownStep::Pause(DAEMON_GRACE_MILLIS as nat),
                ShutdownStep::ForceKillDaemon,
            ],
        },
    }
}

/// The whole shutdown sequence for `n_games` game handles and an optional daemon.
pub open spec fn shutdown_plan(n_games: nat, daemon_pid: Option<u32>, platform: Platform) -> Seq<
    ShutdownStep,
> {
    game_kills(n_games) + daemon_steps(daemon_pid, platform)
}

/// Builds the shutdown sequence for `n_games` game handles and, if present,
/// the daemon with the given identifier.
pub fn shutdown_actions(n_games: usize, daemon_pid: Option<u32>, platform: Platform) -> (r: Vec<
    ShutdownAction,
>)
    ensures
        steps_of(r@) == shutdown_plan(n_games as nat, daemon_pid, platform),
{
    let mut r: Vec<ShutdownAction> = Vec::new();
    let mut i: usize = 0;
    while i < n_games
        invariant
            i <= n_games,
            r@.len() == i,
            steps_of(r@) == game_kills(i as nat),
        decreases n_games - i,
    {
        let ghost prev = r@;
        r.push(ShutdownAction::KillGame(i));
        assert forall|k: int| 0 <= k <= i implies #[trigger] steps_of(r@)[k]
            == ShutdownStep::KillGame(k as nat) by {
            if k < i {
                assert(r@[k] == prev[k]);
                assert(steps_of(prev)[k] == game_kills(i as nat)[k]);
            }
        }
        assert(steps_of(r@) =~= game_kills((i + 1) as nat));
        i = i + 1;
    }
    let ghost kills = r@;
    match daemon_pid {
        None => {},
        Some(pid) => {
            r.push(ShutdownAction::RequestDaemonTermination(graceful_termination_command(platform, pid)));
            if platform == Platform::Windows {
                r.push(ShutdownAction::Pause(DAEMON_GRACE_MILLIS));
            }
            r.push(ShutdownAction::ForceKillDaemon);
        },
    }
    assert(steps_of(r@) =~= shutdown_plan(n_games as nat, daemon_pid, platform));
    r
}

/// What shutdown took out of the registry, and the steps to perform on it.
pub struct Shutdown<G, D> {
    pub games: Vec<G>,
    pub daemon: Option<D>,
    pub actions: Vec<ShutdownAction>,
}

/// The identifier of the daemon in a slot, if any.
pub open spec fn pid_in<D>(daemon: Option<DaemonEntry<D>>) -> Option<u32> {
    match daemon {
        Some(e) => Some(e.pid),
        None => None,
    }
}

/// The handle of the daemon in a slot, if any.
pub open spec fn handle_in<D>(daemon: Option<DaemonEntry<D>>) -> Option<D> {
    match daemon {
        Some(e) => Some(e.handle),
        None => None,
    }
}

/// Drains the registry and plans the termination of everything it held.
/// The host calls this under the registry's lock and performs the actions
/// after releasing it.
pub fn begin_shutdown<G, D>(registry: &mut ProcessRegistry<G, D>, platform: Platform) -> (r:
    Shutdown<G, D>)
    ensures
        final(registry)@ == RegistryView::<G, D>::empty(),
        r.games@ == old(registry)@.games,
        r.daemon == handle_in(old(registry)@.daemon),
        steps_of(r.actions@) == shutdown_plan(
            old(registry)@.games.len(),
            pid_in(old(registry)@.daemon),
            platform,
        ),
{
    let (games, daemon) = registry.drain();
    let (pid, handle) = match daemon {
        Some(e) => (Some(e.pid), Some(e.handle)),
        None => (None, None),
    };
    let actions = shutdown_actions(games.len(), pid, platform);
    Shutdown { games, daemon: handle, actions }
}

/// With no daemon tracked, shutdown makes exactly one termination attempt
/// per game handle and issues no daemon command.
pub proof fn lemma_shutdown_without_daemon(n_games: nat, platform: Platform)
    ensures
        shutdown_plan(n_games, None, platform).len() == n_games,
        forall|i: int|
            0 <= i < n_games ==> #[trigger] shutdown_plan(n_games, None, platform)[i]
                == ShutdownStep::KillGame(i as nat),
{
    assert(shutdown_plan(n_games, None, platform) =~= game_kills(n_games));
}

/// On POSIX, after the game kills, shutdown sends `kill -TERM <pid>` to the
/// daemon and then force-kills the daemon's handle, unconditionally.
pub proof fn lemma_posix_daemon_shutdown(n_games: nat, pid: u32)
    ensures
        shutdown_plan(n_games, Some(pid), Platform::Posix).len() == n_games + 2,
        forall|i: int|
            0 <= i < n_games ==> #[trigger] shutdown_plan(n_games, Some(pid), Platform::Posix)[i]
                == ShutdownStep::KillGame(i as nat),
        shutdown_plan(n_games, Some(pid), Platform::Posix)[n_games as int]
            == ShutdownStep::RequestDaemonTermination(
            (CommandSpec { program: "kill"@, args: seq!["-TERM"@, crate::platform::decimal(pid as nat)] }),
        ),
        shutdown_plan(n_games, Some(pid), Platform::Posix)[n_games + 1int]
            == ShutdownStep::ForceKillDaemon,
{
}

/// On Windows, after the game kills, shutdown sends a tree-kill request for
/// the daemon's identifier, waits, and then force-kills the daemon's handle.
pub proof fn lemma_windows_daemon_shutdown(n_games: nat, pid: u32)
    ensures
        shutdown_plan(n_games, Some(pid), Platform::Windows).len() == n_games + 3,
        forall|i: int|
            0 <= i < n_games ==> #[trigger] shutdown_plan(n_games, Some(pid), Platform::Windows)[i]
                == ShutdownStep::KillGame(i as nat),
        shutdown_plan(n_games, Some(pid), Platform::Windows)[n_games as int]
            == ShutdownStep::RequestDaemonTermination(
            (CommandSpec {
                program: "taskkill"@,
                args: seq!["/PID"@, crate::platform::decimal(pid as nat), "/T"@],
            }),
        ),
        shutdown_plan(n_games, Some(pid), Platform::Windows)[n_games + 1int]
            == ShutdownStep::Pause(DAEMON_GRACE_MILLIS as nat),
        shutdown_plan(n_games, Some(pid), Platform::Windows)[n_games + 2int]
            == ShutdownStep::ForceKillDaemon,
{
}

} // verus!
