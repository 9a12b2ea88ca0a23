use vstd::prelude::*;
use crate::registry::{DaemonEntry, ProcessRegistry};

verus! {

/// The number of configuration invocations run before the daemon is spawned.
pub const CONFIG_COUNT: usize = 2;

/// One run of the daemon's own command-line interface: its arguments and its
/// environment.
#[derive(Debug)]
pub struct Invocation {
    pub args: Vec<String>,
    pub env: Vec<(String, String)>,
}

/// The mathematical value of an `Invocation`.
pub struct InvocationSpec {
    pub args: Seq<Seq<char>>,
    pub env: Seq<(Seq<char>, Seq<char>)>,
}

impl View for Invocation {
    type V = InvocationSpec;

    open spec fn view(&self) -> InvocationSpec {
        InvocationSpec {
            args: self.args@.map_values(|a: String| a@),
            env: self.env@.map_values(|p: (String, String)| (p.0@, p.1@)),
        }
    }
}

/// The environment of every daemon invocation: the variable that points the
/// daemon at its data directory.
pub open spec fn daemon_env(data_dir: Seq<char>) -> Seq<(Seq<char>, Seq<char>)> {
    seq![("IPFS_PATH"@, data_dir)]
}

/// The arguments of the configuration invocation number `k`: first the
/// allow-list of HTTP origins, then the allow-list of HTTP methods.
pub open spec fn config_args(k: nat) -> Seq<Seq<char>> {
    if k == 0 {
        seq![
            "config"@,
            "API.HTTPHeaders.Access-Control-Allow-Origin"@,
            "[\"http://localhost:3000\", \"http://localhost:1420\", \"tauri://localhost\", \"https://webui.ipfs.io\", \"http://127.0.0.1:5001\"]"@,
            "--json"@,
        ]
    } else {
        seq![
            "config"@,
            "API.HTTPHeaders.Access-Control-Allow-Methods"@,
            "[\"PUT\", \"POST\", \"GET\"]"@,
            "--json"@,
        ]
    }
}

/// The arguments that start the long-running daemon.
pub open spec fn daemon_args() -> Seq<Seq<char>> {
    seq!["daemon"@, "--init"@]
}

/// The step at which a bootstrap stopped.
#[derive(Clone, Copy, Debug, PartialEq, Eq, Structural)]
pub enum BootFailure {
    Directory,
    Spawn,
}

/// Where the daemon's bootstrap stands.
#[derive(Clone, Copy, Debug, PartialEq, Eq, Structural)]
pub enum BootStage {
    NotStarted,
    /// The data directory exists; this many configuration invocations have run.
    DirectoryPrepared(usize),
    /// Every configuration invocation has run.
    ConfigApplied,
    /// The daemon was spawned and its handle is in the registry.
    Running,
    Failed(BootFailure),
}

/// What the host must do next for the bootstrap.
#[derive(Debug)]
pub enum BootAction {
    /// Create this directory and its parents if absent.
    PrepareDirectory(String),
    /// Run this configuration invocation and wait for it.
    Configure(Invocation),
    /// Spawn the daemon with this invocation, without waiting for it.
    SpawnDaemon(Invocation),
    /// Nothing is left to do.
    Finished,
}

/// The mathematical value of a `BootAction`.
pub enum BootRequest {
    PrepareDirectory(Seq<char>),
    Configure(InvocationSpec),
    SpawnDaemon(InvocationSpec),
    Finished,
}

impl View for BootAction {
    type V = BootRequest;

    open spec fn view(&self) -> BootRequest {
        match self {
            BootAction::PrepareDirectory(d) => BootRequest::PrepareDirectory(d@),
            BootAction::Configure(i) => BootRequest::Configure(i@),
            BootAction::SpawnDaemon(i) => BootRequest::SpawnDaemon(i@),
            BootAction::Finished => BootRequest::Finished,
        }
    }
}

/// Whether a stage can occur.
pub open spec fn stage_wf(stage: BootStage) -> bool {
    stage matches BootStage::DirectoryPrepared(k) ==> k < CONFIG_COUNT
}

/// The action owed at `stage` for a daemon whose data directory is `data_dir`.
pub open spec fn boot_action_at(stage: BootStage, data_dir: Seq<char>) -> BootRequest {
    match stage {
        BootStage::NotStarted => BootRequest::PrepareDirectory(data_dir),
        BootStage::DirectoryPrepared(k) => BootRequest::Configure(
            InvocationSpec { args: config_args(k as nat), env: daemon_env(data_dir) },
        ),
        BootStage::ConfigApplied => BootRequest::SpawnDaemon(
            InvocationSpec { args: daemon_args(), env: daemon_env(data_dir) },
        ),
        _ => BootRequest::Finished,
    }
}

/// The stage after the directory step, by whether it succeeded.
pub open spec fn after_directory(ok: bool) -> BootStage {
    if ok {
        BootStage::DirectoryPrepared(0)
    } else {
        BootStage::Failed(BootFailure::Directory)
    }
}

/// The stage after a configuration invocation ran, whatever its outcome:
/// a configuration failure does not stop the bootstrap.
pub open spec fn after_config(stage: BootStage) -> BootStage {
    match stage {
        BootStage::DirectoryPrepared(k) => if k + 1 >= CONFIG_COUNT {
            BootStage::ConfigApplied
        } else {
            BootStage::DirectoryPrepared((k + 1) as usize)
        },
        _ => stage,
    }
}

/// The bootstrap of the storage daemon: prepare its data directory, apply
/// its configuration, spawn it and register it.
pub struct DaemonBootstrap {
    pub data_dir: String,
    pub stage: BootStage,
}

fn daemon_environment(data_dir: &String) -> (r: Vec<(String, String)>)
    ensures
        r@.map_values(|p: (String, String)| (p.0@, p.1@)) == daemon_env(data_dir@),
{
    let mut r: Vec<(String, String)> = Vec::new();
    r.push((String::from_str("IPFS_PATH"), data_dir.clone()));
    assert(r@.map_values(|p: (String, String)| (p.0@, p.1@)) =~= daemon_env(data_dir@));
    r
}

fn texts(items: &[&str]) -> (r: Vec<String>)
    ensures
        r@.map_values(|a: String| a@) == items@.map_values(|s: &str| s@),
{
    let mut r: Vec<String> = Vec::new();
    let mut i: usize = 0;
    while i < items.len()
        invariant
            i <= items@.len(),
            r@.len() == i,
            r@.map_values(|a: String| a@) == items@.subrange(0, i as int).map_values(|s: &str| s@),
        decreases items@.len() - i,
    {
        let ghost prev = r@;
        r.push(String::from_str(items[i]));
        assert forall|k: int| 0 <= k <= i implies #[trigger] r@[k]@ == items@[k]@ by {
            if k < i {
                assert(r@[k] == prev[k]);
                assert(prev.map_values(|a: String| a@)[k] == items@.subrange(0, i as int).map_values(
                    |s: &str| s@,
                )[k]);
            }
        }
        assert(r@.map_values(|a: String| a@) =~= items@.subrange(0, i + 1).map_values(|s: &str| s@));
        i = i + 1;
    }
    assert(items@.subrange(0, items@.len() as int) =~= items@);
    r
}

impl DaemonBootstrap {
    /// A bootstrap that has not started, for the data directory `data_dir`.
    pub fn new(data_dir: String) -> (r: DaemonBootstrap)
        ensures
            r.data_dir@ == data_dir@,
            r.stage == BootStage::NotStarted,
    {
        DaemonBootstrap { data_dir, stage: BootStage::NotStarted }
    }

    /// The action the host must perform next.
    pub fn next_action(&self) -> (r: BootAction)
        requires
            stage_wf(self.stage),
        ensures
            r@ == boot_action_at(self.stage, self.data_dir@),
    {
        match self.stage {
            BootStage::NotStarted => BootAction::PrepareDirectory(self.data_dir.clone()),
            BootStage::DirectoryPrepared(k) => {
                let args = if k == 0 {
                    texts(
                        &[
                            "config",
                            "API.HTTPHeaders.Access-Control-Allow-Origin",
                            "[\"http://localhost:3000\", \"http://localhost:1420\", \"tauri://localhost\", \"https://webui.ipfs.io\", \"http://127.0.0.1:5001\"]",
                            "--json",
                        ],
                    )
                } else {
                    texts(
                        &[
                            "config",
                            "API.HTTPHeaders.Access-Control-Allow-Methods",
                            "[\"PUT\", \"POST\", \"GET\"]",
                            "--json",
                        ],
                    )
                };
                let r = Invocation { args, env: daemon_environment(&self.data_dir) };
                assert(r@.args =~= config_args(k as nat));
                BootAction::Configure(r)
            },
            BootStage::ConfigApplied => {
                let r = Invocation {
                    args: texts(&["daemon", "--init"]),
                    env: daemon_environment(&self.data_dir),
                };
                assert(r@.args =~= daemon_args());
                BootAction::SpawnDaemon(r)
            },
            _ => BootAction::Finished,
        }
    }

    /// Takes the outcome of the directory step. On failure the bootstrap stops.
    pub fn directory_prepared(&mut self, ok: bool)
        requires
            old(self).stage == BootStage::NotStarted,
        ensures
            final(self).data_dir == old(self).data_dir,
            final(self).stage == after_directory(ok),
    {
        self.stage = if ok {
            BootStage::DirectoryPrepared(0)
        } else {
            BootStage::Failed(BootFailure::Directory)
        };
    }

    /// Records that the current configuration invocation has run. Its outcome
    /// is the host's to log: a failed configuration does not stop the bootstrap.
    pub fn config_finished(&mut self)
        requires
            old(self).stage is DirectoryPrepared,
            stage_wf(old(self).stage),
        ensures
            final(self).data_dir == old(self).data_dir,
            final(self).stage == after_config(old(self).stage),
            stage_wf(final(self).stage),
    {
        if let BootStage::DirectoryPrepared(k) = self.stage {
            self.stage = if k + 1 >= CONFIG_COUNT {
                BootStage::ConfigApplied
            } else {
                BootStage::DirectoryPrepared(k + 1)
            };
        }
    }

    /// Takes the outcome of the spawn: the daemon's identifier and handle, or
    /// the reason it failed. A spawned daemon goes into the registry's daemon
    /// slot, and whatever handle was there is handed back untouched; on
    /// failure the registry is left as it was.
    pub fn daemon_spawned<G, D>(
        &mut self,
        registry: &mut ProcessRegistry<G, D>,
        outcome: Result<(u32, D), String>,
    ) -> (previous: Option<DaemonEntry<D>>)
        requires
            old(self).stage == BootStage::ConfigApplied,
        ensures
            final(self).data_dir == old(self).data_dir,
            outcome is Ok ==> final(self).stage == BootStage::Running && final(registry)@
                == old(registry)@.with_daemon(
                (DaemonEntry { pid: outcome->Ok_0.0, handle: outcome->Ok_0.1 }),
            ) && previous == old(registry)@.daemon,
            outcome is Err ==> final(self).stage == BootStage::Failed(BootFailure::Spawn)
                && final(registry)@ == old(registry)@ && previous is None,
    {
        match outcome {
            Ok((pid, handle)) => {
                self.stage = BootStage::Running;
                registry.set_daemon(pid, handle)
            },
            Err(_) => {
                self.stage = BootStage::Failed(BootFailure::Spawn);
                None
            },
        }
    }
}

/// Once the data directory is ready, the bootstrap runs the origin
/// configuration, then the method configuration, and only then spawns the
/// daemon; all three invocations carry the same environment, naming the data
/// directory. No other stage asks for a spawn.
pub proof fn lemma_configuration_precedes_spawn(data_dir: Seq<char>, stage: BootStage)
    ensures
        boot_action_at(after_directory(true), data_dir) == BootRequest::Configure(
            InvocationSpec { args: config_args(0), env: daemon_env(data_dir) },
        ),
        boot_action_at(after_config(after_directory(true)), data_dir) == BootRequest::Configure(
            InvocationSpec { args: config_args(1), env: daemon_env(data_dir) },
        ),
        after_config(after_config(after_directory(true))) == BootStage::ConfigApplied,
        boot_action_at(after_config(after_config(after_directory(true))), data_dir)
            == BootRequest::SpawnDaemon(
            InvocationSpec { args: daemon_args(), env: daemon_env(data_dir) },
        ),
        boot_action_at(stage, data_dir) is SpawnDaemon ==> stage == BootStage::ConfigApplied,
{
}

} // verus!
