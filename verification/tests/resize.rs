use glrnvim::backend::resize::begin_post_start;
use glrnvim::backend::resize::editor_process_name;
use glrnvim::backend::resize::find_child;
use glrnvim::backend::resize::needs_post_start;
use glrnvim::backend::resize::post_start;
use glrnvim::backend::resize::Correction;
use glrnvim::backend::resize::PollState;
use glrnvim::backend::resize::ProcessInfo;
use glrnvim::backend::resize::MAX_ATTEMPTS;
use glrnvim::backend::resize::RETRY_MILLIS;
use glrnvim::config::Backend;
use glrnvim::config::Config;
use glrnvim::host::Platform;

fn process(pid: u32, parent: Option<u32>) -> ProcessInfo {
    ProcessInfo { pid, parent }
}

#[test]
fn no_child_of_the_terminal_exhausts_all_ten_attempts() {
    let table = vec![process(10, Some(1)), process(11, None), process(12, Some(10))];
    let mut state = PollState::new();
    let mut outcomes = Vec::new();
    for _ in 0..10 {
        outcomes.push(post_start(&mut state, &table, 4242));
    }
    assert_eq!(&outcomes[..9], &[Correction::Wait; 9]);
    assert_eq!(outcomes[9], Correction::GiveUp);
    assert!(!outcomes.iter().any(|o| matches!(o, Correction::Resize(_))));
    assert_eq!(state.attempts, 10);
    assert_eq!(post_start(&mut state, &table, 4242), Correction::GiveUp);
    assert_eq!(state.attempts, 10);
}

#[test]
fn empty_process_table_gives_up_after_the_budget() {
    let mut state = PollState::new();
    let mut scans = 0;
    loop {
        scans += 1;
        match post_start(&mut state, &Vec::new(), 1) {
            Correction::Wait => {}
            Correction::GiveUp => break,
            Correction::Resize(pid) => panic!("signalled {}", pid),
        }
    }
    assert_eq!(scans, 10);
}

#[test]
fn the_first_child_is_signalled_and_the_correction_stops() {
    let table = vec![
        process(7, Some(3)),
        process(8, Some(99)),
        process(9, None),
        process(10, Some(99)),
    ];
    let mut state = PollState::new();
    assert_eq!(post_start(&mut state, &table, 99), Correction::Resize(8));
    assert_eq!(post_start(&mut state, &table, 99), Correction::GiveUp);
}

#[test]
fn a_child_that_shows_late_is_still_found() {
    let mut state = PollState::new();
    assert_eq!(post_start(&mut state, &Vec::new(), 5), Correction::Wait);
    assert_eq!(post_start(&mut state, &vec![process(2, Some(4))], 5), Correction::Wait);
    assert_eq!(state.attempts, 2);
    assert_eq!(post_start(&mut state, &vec![process(6, Some(5))], 5), Correction::Resize(6));
}

#[test]
fn a_child_on_the_last_attempt_is_signalled() {
    let mut state = PollState { attempts: 9 };
    assert_eq!(post_start(&mut state, &vec![process(6, Some(5))], 5), Correction::Resize(6));
    let mut state = PollState { attempts: 9 };
    assert_eq!(post_start(&mut state, &vec![process(6, Some(4))], 5), Correction::GiveUp);
    let mut state = PollState { attempts: 8 };
    assert_eq!(post_start(&mut state, &vec![process(6, Some(4))], 5), Correction::Wait);
}

#[test]
fn find_child_looks_at_the_parent_only() {
    assert_eq!(find_child(&vec![process(5, Some(5))], 5), Some(5));
    assert_eq!(find_child(&vec![process(5, None)], 5), None);
    assert_eq!(find_child(&vec![process(5, Some(1)), process(1, Some(5))], 5), Some(1));
    assert_eq!(find_child(&Vec::new(), 0), None);
}

#[test]
fn budget_and_pause() {
    assert_eq!(MAX_ATTEMPTS, 10);
    assert_eq!(RETRY_MILLIS, 10);
}

#[test]
fn correction_applies_on_linux_only() {
    assert!(needs_post_start(Backend::Alacritty, Platform::Linux));
    assert!(!needs_post_start(Backend::Alacritty, Platform::MacOs));
    assert!(!needs_post_start(Backend::Alacritty, Platform::Other));
    for backend in [Backend::Urxvt, Backend::Kitty, Backend::Wezterm, Backend::Foot] {
        assert!(!needs_post_start(backend, Platform::Linux));
        assert!(!needs_post_start(backend, Platform::MacOs));
    }
}

#[test]
fn a_correction_begins_with_the_editors_name_and_no_scan_made() {
    let begun = |p: &str| {
        begin_post_start(&Config { nvim_exe_path: p.to_string(), ..Default::default() })
    };
    assert_eq!(begun("/usr/bin/nvim"), Some(("nvim".to_string(), PollState { attempts: 0 })));
    assert_eq!(begun("nvim"), Some(("nvim".to_string(), PollState::new())));
}

#[test]
fn an_editor_path_without_a_name_begins_no_correction() {
    for p in ["", "/", "/usr/bin/..", ".."] {
        let config = Config { nvim_exe_path: p.to_string(), ..Default::default() };
        assert_eq!(begin_post_start(&config), None, "{:?}", p);
    }
}

#[test]
fn editor_process_name_is_the_last_component() {
    let named = |p: &str| {
        editor_process_name(&Config { nvim_exe_path: p.to_string(), ..Default::default() })
    };
    assert_eq!(named("/usr/local/bin/nvim"), Some("nvim".to_string()));
    assert_eq!(named("nvim"), Some("nvim".to_string()));
    assert_eq!(named("bin/nvim-nightly"), Some("nvim-nightly".to_string()));
    assert_eq!(named("/usr/bin/.."), None);
    assert_eq!(named("/"), None);
}
