use game_launcher::{
    begin_shutdown, graceful_termination_command, permission_fix_command, pid_text,
    shutdown_actions, BootAction, BootFailure, BootStage, CommandLine, CreateGameRequest,
    DaemonBootstrap, Game, GameExecutable, GameLaunch, LaunchAction, LaunchStage, Platform,
    ProcessRegistry, SearchQuery, ShutdownAction, DAEMON_GRACE_MILLIS,
};

#[derive(Debug, PartialEq)]
struct FakeProcess {
    id: u32,
    killed: bool,
}

fn fake(id: u32) -> FakeProcess {
    FakeProcess { id, killed: false }
}

fn assert_command(c: &CommandLine, program: &str, args: &[&str]) {
    assert_eq!(c.program, program);
    let got: Vec<&str> = c.args.iter().map(|a| a.as_str()).collect();
    assert_eq!(got, args.to_vec());
}

const ORIGINS: &str = "[\"http://localhost:3000\", \"http://localhost:1420\", \"tauri://localhost\", \"https://webui.ipfs.io\", \"http://127.0.0.1:5001\"]";

/// Runs a launch to the end with the given outcomes; reports whether a spawn
/// was asked for.
fn run_launch(
    platform: Platform,
    path: &str,
    registry: &mut ProcessRegistry<FakeProcess, FakeProcess>,
    permission: Result<(), String>,
    spawn: Result<FakeProcess, String>,
) -> (Result<String, String>, bool) {
    let mut launch = GameLaunch::new(platform, path.to_string());
    let mut permission = Some(permission);
    let mut spawn = Some(spawn);
    let mut spawn_asked = false;
    loop {
        match launch.next_action() {
            LaunchAction::FixPermission(cmd) => {
                assert_command(&cmd, "chmod", &["+x", path]);
                if let Err(e) = launch.permission_fixed(permission.take().unwrap()) {
                    assert_eq!(launch.stage, LaunchStage::Failed);
                    assert!(matches!(launch.next_action(), LaunchAction::Finished));
                    return (Err(e), spawn_asked);
                }
            }
            LaunchAction::Spawn(p) => {
                assert_eq!(p, path);
                spawn_asked = true;
                return (launch.spawned(registry, spawn.take().unwrap()), spawn_asked);
            }
            LaunchAction::Finished => panic!("launch finished without a result"),
        }
    }
}

#[test]
fn launches_are_all_tracked() {
    let mut registry: ProcessRegistry<FakeProcess, FakeProcess> = ProcessRegistry::new();
    for i in 0..5u32 {
        let (r, _) = run_launch(Platform::Posix, "/tmp/game", &mut registry, Ok(()), Ok(fake(i)));
        assert_eq!(r, Ok("Game launched: /tmp/game".to_string()));
        if i == 2 {
            registry.set_daemon(99, fake(99));
        }
    }
    assert_eq!(registry.game_count(), 5);
    assert_eq!(registry.daemon_pid(), Some(99));
}

#[test]
fn set_daemon_twice_keeps_second_and_returns_first() {
    let mut registry: ProcessRegistry<FakeProcess, FakeProcess> = ProcessRegistry::new();
    assert!(registry.set_daemon(1, fake(1)).is_none());
    let previous = registry.set_daemon(2, fake(2)).unwrap();
    assert_eq!(previous.pid, 1);
    assert_eq!(previous.handle, FakeProcess { id: 1, killed: false });
    assert_eq!(registry.daemon_pid(), Some(2));
    assert_eq!(registry.game_count(), 0);
}

#[test]
fn shutdown_without_daemon_kills_three_games() {
    let mut registry: ProcessRegistry<FakeProcess, FakeProcess> = ProcessRegistry::new();
    for i in 0..3u32 {
        registry.register_game(fake(i));
    }
    let sd = begin_shutdown(&mut registry, Platform::Posix);
    assert_eq!(sd.games.len(), 3);
    assert!(sd.daemon.is_none());
    assert_eq!(sd.actions.len(), 3);
    for (i, a) in sd.actions.iter().enumerate() {
        assert!(matches!(a, ShutdownAction::KillGame(k) if *k == i));
    }
    assert_eq!(registry.game_count(), 0);
    assert!(!registry.has_daemon());
}

#[test]
fn posix_daemon_shutdown_sends_term_then_force_kill() {
    let mut registry: ProcessRegistry<FakeProcess, FakeProcess> = ProcessRegistry::new();
    registry.set_daemon(4242, fake(4242));
    let sd = begin_shutdown(&mut registry, Platform::Posix);
    assert_eq!(sd.daemon, Some(fake(4242)));
    assert_eq!(sd.actions.len(), 2);
    match &sd.actions[0] {
        ShutdownAction::RequestDaemonTermination(c) => assert_command(c, "kill", &["-TERM", "4242"]),
        other => panic!("unexpected {:?}", other),
    }
    assert!(matches!(sd.actions[1], ShutdownAction::ForceKillDaemon));
}

#[test]
fn windows_daemon_shutdown_tree_kills_waits_then_force_kills() {
    let actions = shutdown_actions(1, Some(7), Platform::Windows);
    assert_eq!(actions.len(), 4);
    assert!(matches!(actions[0], ShutdownAction::KillGame(0)));
    match &actions[1] {
        ShutdownAction::RequestDaemonTermination(c) => {
            assert_command(c, "taskkill", &["/PID", "7", "/T"])
        }
        other => panic!("unexpected {:?}", other),
    }
    assert!(matches!(actions[2], ShutdownAction::Pause(500)));
    assert_eq!(DAEMON_GRACE_MILLIS, 500);
    assert!(matches!(actions[3], ShutdownAction::ForceKillDaemon));
}

#[test]
fn empty_registry_shutdown_does_nothing() {
    let mut registry: ProcessRegistry<FakeProcess, FakeProcess> = ProcessRegistry::new();
    let sd = begin_shutdown(&mut registry, Platform::Windows);
    assert!(sd.games.is_empty());
    assert!(sd.daemon.is_none());
    assert!(sd.actions.is_empty());
}

#[test]
fn pid_text_is_decimal() {
    assert_eq!(pid_text(0), "0");
    assert_eq!(pid_text(9), "9");
    assert_eq!(pid_text(10), "10");
    assert_eq!(pid_text(4242), "4242");
    assert_eq!(pid_text(u32::MAX), "4294967295");
}

#[test]
fn commands_have_the_platform_shape() {
    assert_command(&permission_fix_command(&"/opt/g".to_string()), "chmod", &["+x", "/opt/g"]);
    assert_command(&graceful_termination_command(Platform::Posix, 31), "kill", &["-TERM", "31"]);
    assert_command(
        &graceful_termination_command(Platform::Windows, 31),
        "taskkill",
        &["/PID", "31", "/T"],
    );
    assert!(Platform::Posix.needs_permission_fix());
    assert!(!Platform::Windows.needs_permission_fix());
}

/// Drives a bootstrap with the given outcomes; returns the invocations seen,
/// in order, as (kind, args, env).
fn run_bootstrap(
    dir: &str,
    registry: &mut ProcessRegistry<FakeProcess, FakeProcess>,
    dir_ok: bool,
    spawn: Result<(u32, FakeProcess), String>,
) -> (DaemonBootstrap, Vec<(&'static str, Vec<String>, Vec<(String, String)>)>) {
    let mut boot = DaemonBootstrap::new(dir.to_string());
    let mut seen = Vec::new();
    let mut spawn = Some(spawn);
    loop {
        match boot.next_action() {
            BootAction::PrepareDirectory(d) => {
                assert_eq!(d, dir);
                seen.push(("dir", vec![d], vec![]));
                boot.directory_prepared(dir_ok);
            }
            BootAction::Configure(inv) => {
                seen.push(("config", inv.args, inv.env));
                boot.config_finished();
            }
            BootAction::SpawnDaemon(inv) => {
                seen.push(("spawn", inv.args, inv.env));
                boot.daemon_spawned(registry, spawn.take().unwrap());
            }
            BootAction::Finished => return (boot, seen),
        }
    }
}

#[test]
fn bootstrap_configures_before_spawn_with_one_environment() {
    let mut registry: ProcessRegistry<FakeProcess, FakeProcess> = ProcessRegistry::new();
    let (boot, seen) =
        run_bootstrap("/data/.ipfs", &mut registry, true, Ok((77, fake(77))));
    assert_eq!(boot.stage, BootStage::Running);
    let kinds: Vec<&str> = seen.iter().map(|s| s.0).collect();
    assert_eq!(kinds, vec!["dir", "config", "config", "spawn"]);
    let env = vec![("IPFS_PATH".to_string(), "/data/.ipfs".to_string())];
    for s in &seen[1..] {
        assert_eq!(s.2, env);
    }
    assert_eq!(
        seen[1].1,
        vec!["config", "API.HTTPHeaders.Access-Control-Allow-Origin", ORIGINS, "--json"]
    );
    assert_eq!(
        seen[2].1,
        vec!["config", "API.HTTPHeaders.Access-Control-Allow-Methods", "[\"PUT\", \"POST\", \"GET\"]", "--json"]
    );
    assert_eq!(seen[3].1, vec!["daemon", "--init"]);
    assert_eq!(registry.daemon_pid(), Some(77));
}

#[test]
fn bootstrap_directory_failure_stops_everything() {
    let mut registry: ProcessRegistry<FakeProcess, FakeProcess> = ProcessRegistry::new();
    let (boot, seen) = run_bootstrap("/ro/.ipfs", &mut registry, false, Ok((1, fake(1))));
    assert_eq!(boot.stage, BootStage::Failed(BootFailure::Directory));
    assert_eq!(seen.len(), 1);
    assert!(!registry.has_daemon());
}

#[test]
fn bootstrap_spawn_failure_leaves_slot_empty() {
    let mut registry: ProcessRegistry<FakeProcess, FakeProcess> = ProcessRegistry::new();
    let (boot, seen) =
        run_bootstrap("/d", &mut registry, true, Err("no such file".to_string()));
    assert_eq!(boot.stage, BootStage::Failed(BootFailure::Spawn));
    assert_eq!(seen.len(), 4);
    assert!(!registry.has_daemon());
}

#[test]
fn permission_failure_prevents_spawn() {
    let mut registry: ProcessRegistry<FakeProcess, FakeProcess> = ProcessRegistry::new();
    registry.register_game(fake(1));
    let (r, spawn_asked) = run_launch(
        Platform::Posix,
        "/tmp/game",
        &mut registry,
        Err("chmod not found".to_string()),
        Ok(fake(2)),
    );
    assert_eq!(r, Err("Failed to set executable permission: chmod not found".to_string()));
    assert!(!spawn_asked);
    assert_eq!(registry.game_count(), 1);
}

#[test]
fn spawn_failure_is_reported_and_not_tracked() {
    let mut registry: ProcessRegistry<FakeProcess, FakeProcess> = ProcessRegistry::new();
    let (r, _) = run_launch(
        Platform::Windows,
        "C:\\games\\g.exe",
        &mut registry,
        Ok(()),
        Err("access denied".to_string()),
    );
    assert_eq!(r, Err("Failed to execute game: access denied".to_string()));
    assert_eq!(registry.game_count(), 0);
}

#[test]
fn windows_launch_skips_permission_step() {
    let launch = GameLaunch::new(Platform::Windows, "g.exe".to_string());
    assert_eq!(launch.stage, LaunchStage::Spawning);
    assert!(matches!(launch.next_action(), LaunchAction::Spawn(p) if p == "g.exe"));
}

#[test]
fn same_path_twice_is_tracked_twice() {
    let mut registry: ProcessRegistry<FakeProcess, FakeProcess> = ProcessRegistry::new();
    run_launch(Platform::Posix, "/g", &mut registry, Ok(()), Ok(fake(1))).0.unwrap();
    run_launch(Platform::Posix, "/g", &mut registry, Ok(()), Ok(fake(2))).0.unwrap();
    assert_eq!(registry.game_count(), 2);
}

#[test]
fn end_to_end_bootstrap_launch_shutdown() {
    let mut registry: ProcessRegistry<FakeProcess, FakeProcess> = ProcessRegistry::new();
    let (boot, _) = run_bootstrap("/app/.ipfs", &mut registry, true, Ok((500, fake(500))));
    assert_eq!(boot.stage, BootStage::Running);
    let (r, _) = run_launch(Platform::Posix, "/tmp/game", &mut registry, Ok(()), Ok(fake(600)));
    assert_eq!(r, Ok("Game launched: /tmp/game".to_string()));
    assert_eq!(registry.game_count(), 1);
    assert!(registry.has_daemon());

    let mut sd = begin_shutdown(&mut registry, Platform::Posix);
    let mut game_kills = 0;
    let mut term_requests = 0;
    let mut forced = false;
    for a in &sd.actions {
        match a {
            ShutdownAction::KillGame(i) => {
                sd.games[*i].killed = true;
                game_kills += 1;
            }
            ShutdownAction::RequestDaemonTermination(c) => {
                assert_command(c, "kill", &["-TERM", "500"]);
                term_requests += 1;
            }
            ShutdownAction::Pause(_) => panic!("no pause on POSIX"),
            ShutdownAction::ForceKillDaemon => {
                assert_eq!(term_requests, 1);
                sd.daemon.as_mut().unwrap().killed = true;
                forced = true;
            }
        }
    }
    assert_eq!(game_kills, 1);
    assert!(forced);
    assert!(sd.games[0].killed);
    assert_eq!(sd.daemon, Some(FakeProcess { id: 500, killed: true }));
    assert_eq!(registry.game_count(), 0);
    assert!(!registry.has_daemon());
}

#[test]
fn game_from_request_copies_fields() {
    let req = CreateGameRequest {
        collection_address: "col".to_string(),
        candy_machine_address: "cm".to_string(),
        name: "Quest".to_string(),
        description: "desc".to_string(),
        image_url: "img".to_string(),
        executables: vec![GameExecutable {
            platform: "x86_64-pc-windows-msvc".to_string(),
            url: "ipfs://abc".to_string(),
        }],
        creator: "me".to_string(),
        metadata_uri: "uri".to_string(),
        price_lamports: 1_500_000,
    };
    let g = Game::from_request(req, 1_700_000_000_000);
    assert!(g.id.is_none());
    assert_eq!(g.name, "Quest");
    assert_eq!(g.price_lamports, 1_500_000);
    assert_eq!(g.executables.len(), 1);
    assert_eq!(g.executables[0].url, "ipfs://abc");
    assert_eq!(g.created_at_millis, 1_700_000_000_000);
    let q = SearchQuery { q: None, categories: None, min_price: Some(1), max_price: None };
    assert_eq!(q.min_price, Some(1));
}
