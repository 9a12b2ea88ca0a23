//! Process lifecycle management for a desktop game launcher: a registry of
//! launched game processes plus one supervised storage daemon, the daemon's
//! bootstrap sequence, the game launch sequence and the shutdown plan.
//!
//! The library decides; the host performs. Every operating-system effect
//! (creating a directory, running a command, spawning or killing a process)
//! is described by an action value that the host carries out and answers with
//! an outcome.

mod platform;

pub use platform::{
    decimal, digit_char, graceful_termination_command, permission_fix_command, pid_text,
    termination_spec, chmod_spec, CommandLine, CommandSpec, Platform,
};

mod registry;

pub use registry::{
    apply_all, game_registrations, lemma_game_count_is_launch_count, lemma_set_daemon_twice,
    DaemonEntry, ProcessRegistry, Registration, RegistryView,
};

mod shutdown;

pub use shutdown::{
    begin_shutdown, daemon_steps, game_kills, handle_in, lemma_posix_daemon_shutdown,
    lemma_shutdown_without_daemon, lemma_windows_daemon_shutdown, pid_in, shutdown_actions,
    shutdown_plan, steps_of, Shutdown, ShutdownAction, ShutdownStep, DAEMON_GRACE_MILLIS,
};

mod launch;

pub use launch::{
    action_at, after_permission, first_stage, launched_message, lemma_permission_failure_prevents_spawn,
    permission_error, spawn_error, GameLaunch, LaunchAction, LaunchStage, LaunchStep,
};

mod bootstrap;

pub use bootstrap::{
    after_config, after_directory, boot_action_at, config_args, daemon_args, daemon_env,
    lemma_configuration_precedes_spawn, stage_wf, BootAction, BootFailure, BootRequest, BootStage,
    DaemonBootstrap, Invocation, InvocationSpec, CONFIG_COUNT,
};

mod models;

pub use models::{CreateGameRequest, Game, GameExecutable, SearchQuery};
