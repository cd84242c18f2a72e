use glrnvim::backend::locate::find_term_conf_files;
use glrnvim::backend::locate::probe_conf_files;
use glrnvim::backend::locate::select_conf_files;
use glrnvim::backend::locate::Candidate;
use glrnvim::host::Host;
use glrnvim::host::Platform;
use std::io::Write;
use tempfile::NamedTempFile;
use tempfile::TempDir;

fn candidate(path: &str, is_file: bool) -> Candidate {
    Candidate { path: path.to_string(), is_file }
}

fn file_with(content: &str) -> NamedTempFile {
    let mut f = NamedTempFile::new().unwrap();
    f.write_all(content.as_bytes()).unwrap();
    f.flush().unwrap();
    f
}

fn path_of(f: &NamedTempFile) -> String {
    f.path().to_str().unwrap().to_string()
}

fn host_with(vars: &[(&str, &str)]) -> Host {
    Host {
        platform: Platform::Linux,
        current_dir: None,
        vars: vars.iter().map(|(k, v)| (k.to_string(), v.to_string())).collect(),
    }
}

fn paths_probed(templates: &[&str], home: Option<&str>, vars: &[(&str, &str)]) -> Vec<String> {
    let templates: Vec<String> = templates.iter().map(|t| t.to_string()).collect();
    let probes = probe_conf_files(&templates, &home.map(|h| h.to_string()), &host_with(vars).vars);
    probes.into_iter().map(|p| p.path).collect()
}

#[test]
fn only_the_second_of_three_priority_candidates_exists() {
    let pri = vec![candidate("/a", false), candidate("/b", true), candidate("/c", false)];
    assert_eq!(select_conf_files(&Vec::new(), &pri), vec!["/b"]);
}

#[test]
fn a_later_priority_candidate_is_ignored_even_if_it_exists() {
    let pri = vec![candidate("/a", false), candidate("/b", true), candidate("/c", true)];
    assert_eq!(select_conf_files(&Vec::new(), &pri), vec!["/b"]);
}

#[test]
fn all_existing_base_candidates_come_first_and_in_order() {
    let base = vec![
        candidate("/etc/one", true),
        candidate("/etc/two", false),
        candidate("/etc/three", true),
    ];
    let pri = vec![candidate("/home/x", true), candidate("/home/y", true)];
    assert_eq!(select_conf_files(&base, &pri), vec!["/etc/one", "/etc/three", "/home/x"]);
    assert_eq!(select_conf_files(&base, &Vec::new()), vec!["/etc/one", "/etc/three"]);
}

#[test]
fn nothing_found_is_no_error() {
    let base = vec![candidate("/x", false)];
    let pri = vec![candidate("/y", false), candidate("/z", false)];
    assert!(select_conf_files(&base, &pri).is_empty());
    assert!(select_conf_files(&Vec::new(), &Vec::new()).is_empty());
}

#[test]
fn find_term_conf_files_on_real_files() {
    let first = file_with("a");
    let second = file_with("b");
    let third = file_with("c");
    let dir = TempDir::new().unwrap();
    let missing = dir.path().join("missing.conf").to_str().unwrap().to_string();
    let host = host_with(&[]);

    let pri = vec![missing.clone(), path_of(&second), path_of(&third)];
    assert_eq!(find_term_conf_files(&Vec::new(), &pri, &host), vec![path_of(&second)]);

    let base = vec![path_of(&first), missing.clone(), path_of(&third)];
    assert_eq!(
        find_term_conf_files(&base, &pri, &host),
        vec![path_of(&first), path_of(&third), path_of(&second)]
    );
    assert!(find_term_conf_files(&vec![missing.clone()], &vec![missing], &host).is_empty());
    assert!(find_term_conf_files(&Vec::new(), &Vec::new(), &host).is_empty());
}

#[test]
fn a_directory_is_no_configuration_file() {
    let dir = TempDir::new().unwrap();
    let path = dir.path().to_str().unwrap().to_string();
    assert!(find_term_conf_files(&vec![path.clone()], &vec![path], &host_with(&[])).is_empty());
}

#[test]
fn candidates_are_found_through_the_hosts_variables() {
    let dir = TempDir::new().unwrap();
    let root = dir.path().to_str().unwrap().to_string();
    let mut made = tempfile::Builder::new()
        .prefix("alacritty")
        .suffix(".toml")
        .tempfile_in(&root)
        .unwrap();
    made.write_all(b"x").unwrap();
    let name = made.path().file_name().unwrap().to_str().unwrap().to_string();

    let host = host_with(&[("GLRNVIM_TEST_CONFIG", root.as_str())]);
    let template = format!("$GLRNVIM_TEST_CONFIG/{}", name);
    let braces = format!("${{GLRNVIM_TEST_CONFIG}}/{}", name);
    let expected = format!("{}/{}", root, name);
    assert_eq!(
        find_term_conf_files(&Vec::new(), &vec![template.clone()], &host),
        vec![expected.clone()]
    );
    assert_eq!(
        find_term_conf_files(&vec![braces], &vec![template.clone()], &host),
        vec![expected.clone(), expected]
    );
    assert!(find_term_conf_files(&Vec::new(), &vec![template], &host_with(&[])).is_empty());
}

#[test]
fn an_undefined_variable_expands_to_nothing_and_the_rest_is_kept() {
    assert_eq!(
        paths_probed(&["$GLRNVIM_TEST_NO_SUCH_VARIABLE_7Q/alacritty.toml"], None, &[]),
        vec!["/alacritty.toml"]
    );
    assert_eq!(
        paths_probed(&["/etc/${GLRNVIM_TEST_NO_SUCH_VARIABLE_7Q}/x.conf"], None, &[("OTHER", "v")]),
        vec!["/etc//x.conf"]
    );
    assert_eq!(paths_probed(&["$A$B"], None, &[]), vec![""]);
}

#[test]
fn variables_expand_to_their_values() {
    let vars = [("XDG_CONFIG_HOME", "/home/u/.config"), ("HOME", "/home/u"), ("EMPTY", "")];
    assert_eq!(
        paths_probed(
            &[
                "$XDG_CONFIG_HOME/alacritty/alacritty.toml",
                "$HOME/.config/foot/foot.conf",
                "${HOME}/x",
                "$EMPTY/y",
                "$HOMEX/z",
            ],
            None,
            &vars
        ),
        vec![
            "/home/u/.config/alacritty/alacritty.toml",
            "/home/u/.config/foot/foot.conf",
            "/home/u/x",
            "/y",
            "/z",
        ]
    );
}

#[test]
fn the_first_of_two_variables_of_one_name_counts() {
    let vars = [("V", "first"), ("V", "second")];
    assert_eq!(paths_probed(&["/$V"], None, &vars), vec!["/first"]);
    assert_eq!(glrnvim::host::lookup_var(&host_with(&vars).vars, "V"), "first");
    assert_eq!(glrnvim::host::lookup_var(&host_with(&vars).vars, "W"), "");
    assert_eq!(glrnvim::host::lookup_var(&Vec::new(), "V"), "");
}

#[test]
fn a_leading_tilde_expands_to_the_home_directory() {
    assert_eq!(
        paths_probed(&["~/.config/kitty.conf", "~", "/a/~/b", "~other/x"], Some("/home/u"), &[]),
        vec!["/home/u/.config/kitty.conf", "/home/u", "/a/~/b", "~other/x"]
    );
    assert_eq!(paths_probed(&["~/x"], None, &[]), vec!["~/x"]);
}

#[test]
fn probing_keeps_the_order_of_the_candidates() {
    let real = file_with("x");
    let probes = probe_conf_files(
        &vec!["/no/such/glrnvim/file".to_string(), path_of(&real)],
        &None,
        &Vec::new(),
    );
    assert_eq!(probes.len(), 2);
    assert_eq!(probes[0].path, "/no/such/glrnvim/file");
    assert!(!probes[0].is_file);
    assert_eq!(probes[1].path, path_of(&real));
    assert!(probes[1].is_file);
}

#[test]
fn a_doubled_dollar_sign_expands_to_one() {
    assert_eq!(paths_probed(&["/no/such/glrnvim/a$$b"], None, &[]), vec!["/no/such/glrnvim/a$b"]);
}

#[test]
fn a_candidate_with_nothing_to_expand_is_probed_as_it_is() {
    let real = file_with("x");
    let plain = path_of(&real);
    assert!(!plain.contains('$') && !plain.starts_with('~'));
    let vars = [("HOME", "/home/u")];
    assert_eq!(
        paths_probed(&[plain.as_str(), "/no/such/~file"], Some("/home/u"), &vars),
        vec![plain.clone(), "/no/such/~file".to_string()]
    );
    assert_eq!(
        find_term_conf_files(&vec![plain.clone()], &Vec::new(), &host_with(&vars)),
        vec![plain]
    );
}
