use kuuzuki_discovery::launcher::{LaunchAction, Launcher, DEADLINE_MS, POLL_INTERVAL_MS};
use kuuzuki_discovery::locator::{LocateAction, Locator, HINT_TIMEOUT_MS, SCAN_TIMEOUT_MS};
use kuuzuki_discovery::server_info::{
    hint_outcome, server_info_path, state_dir, DiscoveryError, ServerInfo,
};
use kuuzuki_discovery::url::{health_url, is_healthy_status, local_url};

fn info(url: &str, pid: u32) -> ServerInfo {
    ServerInfo {
        port: 4096,
        hostname: "127.0.0.1".to_string(),
        url: url.to_string(),
        pid,
        start_time: "2024-01-01T00:00:00Z".to_string(),
    }
}

fn expect_probe(loc: &Locator) -> (String, u64) {
    match loc.action() {
        LocateAction::Probe { url, timeout_ms } => (url, timeout_ms),
        _ => panic!("expected a single probe"),
    }
}

fn expect_batch(loc: &Locator) -> Vec<String> {
    match loc.action() {
        LocateAction::ProbeBatch { urls, timeout_ms } => {
            assert_eq!(timeout_ms, SCAN_TIMEOUT_MS);
            urls
        }
        _ => panic!("expected a batch"),
    }
}

fn expect_finish(loc: &Locator) -> Option<String> {
    match loc.action() {
        LocateAction::Finish { found } => found,
        _ => panic!("expected the end of the search"),
    }
}

#[test]
fn local_url_writes_port_in_decimal() {
    assert_eq!(local_url(4096), "http://127.0.0.1:4096");
    assert_eq!(local_url(0), "http://127.0.0.1:0");
    assert_eq!(local_url(7), "http://127.0.0.1:7");
    assert_eq!(local_url(30010), "http://127.0.0.1:30010");
    assert_eq!(local_url(65535), "http://127.0.0.1:65535");
}

#[test]
fn health_url_appends_endpoint() {
    assert_eq!(health_url("http://127.0.0.1:4096"), "http://127.0.0.1:4096/health");
    assert_eq!(health_url(""), "/health");
}

#[test]
fn state_dir_prefers_override() {
    let r = state_dir(Some("/x/state".to_string()), Some("/home/u".to_string()), None);
    assert_eq!(r.unwrap(), "/x/state");
}

#[test]
fn state_dir_falls_back_to_home() {
    let r = state_dir(None, Some("/home/u".to_string()), Some("/other".to_string()));
    assert_eq!(r.unwrap(), "/home/u/.local/state");
    let r = state_dir(None, None, Some("C:/Users/u".to_string()));
    assert_eq!(r.unwrap(), "C:/Users/u/.local/state");
}

#[test]
fn state_dir_without_home_is_config_error() {
    let r = state_dir(None, None, None);
    assert!(matches!(r, Err(DiscoveryError::Config)));
}

#[test]
fn descriptor_path_below_state_dir() {
    assert_eq!(server_info_path("/home/u/.local/state"), "/home/u/.local/state/kuuzuki/server.json");
}

#[test]
fn absent_hint_file_is_no_hint() {
    let r = hint_outcome(None, Ok(true));
    assert!(matches!(r, Ok(None)));
}

#[test]
fn corrupt_hint_file_is_persistence_error() {
    let r = hint_outcome(Some(Err("expected value".to_string())), Ok(true));
    match r {
        Err(DiscoveryError::Persistence(e)) => assert_eq!(e, "expected value"),
        _ => panic!("expected a persistence error"),
    }
}

#[test]
fn dead_pid_hint_is_no_hint() {
    let r = hint_outcome(Some(Ok(info("http://127.0.0.1:4096", 999999))), Ok(false));
    assert!(matches!(r, Ok(None)));
}

#[test]
fn live_pid_hint_is_kept() {
    let r = hint_outcome(Some(Ok(info("http://127.0.0.1:4321", 42))), Ok(true));
    match r {
        Ok(Some(i)) => {
            assert_eq!(i.url, "http://127.0.0.1:4321");
            assert_eq!(i.pid, 42);
        }
        _ => panic!("expected the hint"),
    }
}

#[test]
fn failed_liveness_check_is_error() {
    let r = hint_outcome(Some(Ok(info("http://127.0.0.1:4321", 42))), Err("no kill".to_string()));
    assert!(matches!(r, Err(DiscoveryError::Liveness(_))));
}

#[test]
fn error_messages_name_the_cause() {
    assert_eq!(DiscoveryError::Config.message(), "Could not determine home directory");
    assert_eq!(
        DiscoveryError::Persistence("bad".to_string()).message(),
        "Failed to load server info: bad"
    );
    assert_eq!(DiscoveryError::Liveness("x".to_string()).message(), "Failed to check process: x");
    assert_eq!(DiscoveryError::Resource.message(), "Failed to resolve Kuuzuki binary path");
    assert_eq!(
        DiscoveryError::Spawn("denied".to_string()).message(),
        "Failed to start Kuuzuki: denied"
    );
    assert_eq!(DiscoveryError::Timeout.message(), "Server failed to start within timeout");
}

#[test]
fn search_starts_by_reading_hint() {
    let loc = Locator::new();
    assert!(matches!(loc.action(), LocateAction::ReadHint));
}

#[test]
fn absent_hint_goes_to_first_well_known_port() {
    let mut loc = Locator::new();
    loc.on_hint(&hint_outcome(None, Ok(true)));
    let (url, timeout) = expect_probe(&loc);
    assert_eq!(url, "http://127.0.0.1:4096");
    assert_eq!(timeout, SCAN_TIMEOUT_MS);
}

#[test]
fn failed_hint_read_goes_to_ports() {
    let mut loc = Locator::new();
    loc.on_hint(&Err(DiscoveryError::Config));
    let (url, _) = expect_probe(&loc);
    assert_eq!(url, "http://127.0.0.1:4096");
}

#[test]
fn healthy_hint_short_circuits() {
    let mut loc = Locator::new();
    loc.on_hint(&Ok(Some(info("http://127.0.0.1:4321", 42))));
    let (url, timeout) = expect_probe(&loc);
    assert_eq!(url, "http://127.0.0.1:4321");
    assert_eq!(timeout, HINT_TIMEOUT_MS);
    loc.on_probe(true);
    assert_eq!(expect_finish(&loc).unwrap(), "http://127.0.0.1:4321");
}

#[test]
fn probe_timeouts_are_bounded() {
    assert!(HINT_TIMEOUT_MS <= 2000);
    assert!(SCAN_TIMEOUT_MS <= 1000);
}

#[test]
fn unhealthy_hint_falls_back_to_ports() {
    let mut loc = Locator::new();
    loc.on_hint(&Ok(Some(info("http://127.0.0.1:4321", 42))));
    loc.on_probe(false);
    let (url, _) = expect_probe(&loc);
    assert_eq!(url, "http://127.0.0.1:4096");
}

#[test]
fn second_well_known_port_wins_and_stops() {
    let mut loc = Locator::new();
    loc.on_hint(&Ok(None));
    assert_eq!(expect_probe(&loc).0, "http://127.0.0.1:4096");
    loc.on_probe(false);
    assert_eq!(expect_probe(&loc).0, "http://127.0.0.1:3000");
    loc.on_probe(true);
    assert_eq!(expect_finish(&loc).unwrap(), "http://127.0.0.1:3000");
    loc.on_probe(false);
    loc.on_batch(&vec![true; 10]);
    assert_eq!(expect_finish(&loc).unwrap(), "http://127.0.0.1:3000");
}

#[test]
fn well_known_ports_in_declared_order() {
    let mut loc = Locator::new();
    loc.on_hint(&Ok(None));
    let mut seen = Vec::new();
    for _ in 0..5 {
        seen.push(expect_probe(&loc).0);
        loc.on_probe(false);
    }
    assert_eq!(
        seen,
        vec![
            "http://127.0.0.1:4096",
            "http://127.0.0.1:3000",
            "http://127.0.0.1:8080",
            "http://127.0.0.1:8000",
            "http://127.0.0.1:5000",
        ]
    );
    let urls = expect_batch(&loc);
    assert_eq!(urls.len(), 10);
    assert_eq!(urls[0], "http://127.0.0.1:30000");
    assert_eq!(urls[9], "http://127.0.0.1:30009");
}

fn to_ephemeral() -> Locator {
    let mut loc = Locator::new();
    loc.on_hint(&Ok(None));
    for _ in 0..5 {
        loc.on_probe(false);
    }
    loc
}

#[test]
fn ephemeral_scan_finds_port_in_later_batch() {
    let mut loc = to_ephemeral();
    for n in 0..3u32 {
        let urls = expect_batch(&loc);
        let base = 30000 + 100 * n;
        for (j, u) in urls.iter().enumerate() {
            assert_eq!(*u, format!("http://127.0.0.1:{}", base + j as u32));
        }
        loc.on_batch(&vec![false; 10]);
    }
    let urls = expect_batch(&loc);
    assert_eq!(urls[7], "http://127.0.0.1:30307");
    let mut answers = vec![false; 10];
    answers[7] = true;
    loc.on_batch(&answers);
    assert_eq!(expect_finish(&loc).unwrap(), "http://127.0.0.1:30307");
}

#[test]
fn batch_with_two_healthy_ports_gives_one_of_them() {
    let mut loc = to_ephemeral();
    let mut answers = vec![false; 10];
    answers[2] = true;
    answers[5] = true;
    loc.on_batch(&answers);
    let found = expect_finish(&loc).unwrap();
    assert!(found == "http://127.0.0.1:30002" || found == "http://127.0.0.1:30005");
}

#[test]
fn short_batch_answer_counts_missing_as_unhealthy() {
    let mut loc = to_ephemeral();
    loc.on_batch(&vec![false; 3]);
    assert_eq!(expect_batch(&loc)[0], "http://127.0.0.1:30100");
}

#[test]
fn dead_pid_descriptor_scenario_ends_with_none() {
    let hint = hint_outcome(Some(Ok(info("http://127.0.0.1:4096", 999999))), Ok(false));
    assert!(matches!(hint, Ok(None)));
    let mut loc = Locator::new();
    loc.on_hint(&hint);
    assert_eq!(expect_probe(&loc).0, "http://127.0.0.1:4096");
    for _ in 0..5 {
        loc.on_probe(false);
    }
    let mut batches = 0;
    let mut last = String::new();
    loop {
        match loc.action() {
            LocateAction::ProbeBatch { urls, .. } => {
                batches += 1;
                last = urls[9].clone();
                loc.on_batch(&vec![false; 10]);
            }
            LocateAction::Finish { found } => {
                assert!(found.is_none());
                break;
            }
            _ => panic!("unexpected action"),
        }
    }
    assert_eq!(batches, 200);
    assert_eq!(last, "http://127.0.0.1:49909");
}

#[test]
fn ensure_running_with_server_found_never_spawns() {
    let mut l = Launcher::new();
    assert!(matches!(l.action(), LaunchAction::Locate));
    l.on_located(Some("http://127.0.0.1:4096".to_string()));
    l.on_resolved(Some("/bin/server".to_string()));
    l.on_spawned(Ok(()));
    match l.action() {
        LaunchAction::Finish { result } => assert_eq!(result.unwrap(), "http://127.0.0.1:4096"),
        _ => panic!("expected the end of the launch"),
    }
}

fn spawned() -> Launcher {
    let mut l = Launcher::new();
    l.on_located(None);
    match l.action() {
        LaunchAction::ResolveBinary { resource } => {
            assert_eq!(resource, "binaries/kuuzuki-x86_64-unknown-linux-gnu")
        }
        _ => panic!("expected the executable lookup"),
    }
    l.on_resolved(Some("/opt/app/kuuzuki".to_string()));
    match l.action() {
        LaunchAction::Spawn { program, args, env_key, env_value } => {
            assert_eq!(program, "/opt/app/kuuzuki");
            assert_eq!(args, vec!["--port".to_string(), "0".to_string()]);
            assert_eq!(env_key, "KUUZUKI_HEADLESS");
            assert_eq!(env_value, "1");
        }
        _ => panic!("expected a spawn"),
    }
    l.on_spawned(Ok(()));
    l
}

#[test]
fn ensure_running_times_out_and_kills() {
    let mut l = spawned();
    let mut elapsed: u64 = 0;
    let mut searches = 0;
    loop {
        match l.action() {
            LaunchAction::CheckClock => l.on_clock(elapsed),
            LaunchAction::Locate => {
                searches += 1;
                l.on_located(None);
            }
            LaunchAction::Sleep { ms } => {
                assert_eq!(ms, POLL_INTERVAL_MS);
                elapsed += ms;
                l.on_slept();
            }
            LaunchAction::Kill => break,
            _ => panic!("unexpected action"),
        }
    }
    assert_eq!(elapsed, DEADLINE_MS);
    assert_eq!(searches, 20);
    l.on_killed();
    match l.action() {
        LaunchAction::Finish { result } => assert!(matches!(result, Err(DiscoveryError::Timeout))),
        _ => panic!("expected the end of the launch"),
    }
}

#[test]
fn ensure_running_notifies_when_server_comes_up() {
    let mut l = spawned();
    l.on_clock(0);
    l.on_located(None);
    l.on_slept();
    l.on_clock(500);
    l.on_located(Some("http://127.0.0.1:41234".to_string()));
    match l.action() {
        LaunchAction::Notify { event, url } => {
            assert_eq!(event, "server-started");
            assert_eq!(url, "http://127.0.0.1:41234");
        }
        _ => panic!("expected a notification"),
    }
    l.on_notified();
    match l.action() {
        LaunchAction::Finish { result } => assert_eq!(result.unwrap(), "http://127.0.0.1:41234"),
        _ => panic!("expected the end of the launch"),
    }
}

#[test]
fn unresolvable_executable_is_resource_error() {
    let mut l = Launcher::new();
    l.on_located(None);
    l.on_resolved(None);
    match l.action() {
        LaunchAction::Finish { result } => assert!(matches!(result, Err(DiscoveryError::Resource))),
        _ => panic!("expected the end of the launch"),
    }
}

#[test]
fn failed_spawn_is_spawn_error() {
    let mut l = Launcher::new();
    l.on_located(None);
    l.on_resolved(Some("/missing".to_string()));
    l.on_spawned(Err("No such file or directory".to_string()));
    match l.action() {
        LaunchAction::Finish { result } => match result {
            Err(DiscoveryError::Spawn(e)) => assert_eq!(e, "No such file or directory"),
            _ => panic!("expected a spawn error"),
        },
        _ => panic!("expected the end of the launch"),
    }
}

#[test]
fn clock_just_below_deadline_searches_again() {
    let mut l = spawned();
    l.on_clock(DEADLINE_MS - 1);
    assert!(matches!(l.action(), LaunchAction::Locate));
}

#[test]
fn only_2xx_status_is_healthy() {
    assert!(is_healthy_status(200));
    assert!(is_healthy_status(204));
    assert!(is_healthy_status(299));
    assert!(!is_healthy_status(199));
    assert!(!is_healthy_status(300));
    assert!(!is_healthy_status(404));
    assert!(!is_healthy_status(503));
}
