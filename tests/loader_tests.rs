use game_companion::config::GameEntry;
use game_companion::loader::{give_up_waiting, list_process_names, similar_processes, ProcessInfo, WatchState};

fn procs(list: &[(&str, u32)]) -> Vec<ProcessInfo> {
    list.iter().map(|(n, p)| ProcessInfo { name: n.to_string(), pid: *p }).collect()
}

/// One watch tick as the loader runs it; `inject_ok` stands for the outcome
/// of each injection.
fn tick(w: &mut WatchState, running: &Vec<ProcessInfo>, inject_ok: bool) -> (Vec<usize>, Vec<u32>) {
    let exited = w.forget_exited(running);
    let mut injected = Vec::new();
    for p in running {
        if let Some(game) = w.injection_target(p) {
            if inject_ok {
                w.record_injection(game, p.pid);
                injected.push(p.pid);
            }
        }
    }
    (exited, injected)
}

#[test]
fn watch_mode_reinjects_after_exit() {
    let games = vec![GameEntry { name: None, process: "Game.exe".to_string() }];
    let mut w = WatchState::new(&games);
    // t = 0: the game is not running
    let (exited, injected) = tick(&mut w, &procs(&[("explorer.exe", 4)]), true);
    assert!(exited.is_empty() && injected.is_empty());
    // t = 6 s: the game has started
    let (exited, injected) = tick(&mut w, &procs(&[("explorer.exe", 4), ("game.exe", 100)]), true);
    assert!(exited.is_empty());
    assert_eq!(injected, vec![100]);
    assert!(w.injected_pids.contains(&100));
    // next tick: already injected
    let (_, injected) = tick(&mut w, &procs(&[("explorer.exe", 4), ("game.exe", 100)]), true);
    assert!(injected.is_empty());
    // t = 30 s: the game exited
    let (exited, injected) = tick(&mut w, &procs(&[("explorer.exe", 4)]), true);
    assert_eq!(exited, vec![0]);
    assert_eq!(games[exited[0]].display_name(), "Game.exe");
    assert!(injected.is_empty());
    assert!(w.injected_pids.is_empty());
    assert!(w.active.is_empty());
    // a new launch is injected again
    let (_, injected) = tick(&mut w, &procs(&[("Game.exe", 250)]), true);
    assert_eq!(injected, vec![250]);
}

#[test]
fn failed_injection_is_retried() {
    let games = vec![GameEntry { name: Some("G".to_string()), process: "g.exe".to_string() }];
    let mut w = WatchState::new(&games);
    let running = procs(&[("G.EXE", 7)]);
    let (_, injected) = tick(&mut w, &running, false);
    assert!(injected.is_empty());
    assert!(w.injected_pids.is_empty());
    let (_, injected) = tick(&mut w, &running, true);
    assert_eq!(injected, vec![7]);
}

#[test]
fn unconfigured_processes_are_left_alone() {
    let games = vec![GameEntry { name: None, process: "a.exe".to_string() }];
    let w = WatchState::new(&games);
    assert_eq!(w.injection_target(&ProcessInfo { name: "b.exe".to_string(), pid: 1 }), None);
    assert_eq!(w.injection_target(&ProcessInfo { name: "A.exe".to_string(), pid: 1 }), Some(0));
}

#[test]
fn later_entry_with_same_name_wins() {
    let games = vec![
        GameEntry { name: Some("First".to_string()), process: "x.exe".to_string() },
        GameEntry { name: Some("Second".to_string()), process: "X.EXE".to_string() },
    ];
    let w = WatchState::new(&games);
    assert_eq!(w.injection_target(&ProcessInfo { name: "x.exe".to_string(), pid: 9 }), Some(1));
}

#[test]
fn process_list_is_sorted_and_deduplicated() {
    let names = vec![
        "svchost.exe".to_string(),
        "Game.exe".to_string(),
        "svchost.exe".to_string(),
        "explorer.exe".to_string(),
        "Game.exe".to_string(),
    ];
    assert_eq!(list_process_names(names), vec!["Game.exe", "explorer.exe", "svchost.exe"]);
    assert!(list_process_names(vec![]).is_empty());
}

#[test]
fn similar_processes_match_without_extension() {
    let names = vec!["EldenRing.exe".to_string(), "explorer.exe".to_string(), "eldenring_launcher.exe".to_string()];
    assert_eq!(similar_processes(&names, "eldenring.exe"), vec!["EldenRing.exe", "eldenring_launcher.exe"]);
    assert_eq!(similar_processes(&names, "Witcher3.EXE"), Vec::<String>::new());
    assert_eq!(similar_processes(&names, "ring"), vec!["EldenRing.exe", "eldenring_launcher.exe"]);
}

#[test]
fn one_shot_wait_gives_up_at_timeout() {
    assert!(give_up_waiting(0, 0));
    assert!(!give_up_waiting(5, 4999));
    assert!(give_up_waiting(5, 5000));
}
