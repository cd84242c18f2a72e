use glrnvim::backend::resolve::bundle_executable;
use glrnvim::backend::resolve::capitalize;
use glrnvim::backend::resolve::choose_executable;
use glrnvim::backend::resolve::exe_path;
use glrnvim::backend::resolve::find_executable;
use glrnvim::backend::resolve::not_found;
use glrnvim::error::ErrorKind;
use glrnvim::host::Platform;

#[test]
fn explicit_path_is_returned_as_it_is() {
    let explicit = Some("/no/such/dir/alacritty".to_string());
    let r = exe_path(&explicit, "alacritty", Platform::Linux);
    assert_eq!(r.unwrap(), "/no/such/dir/alacritty");
}

#[test]
fn unknown_executable_is_not_found() {
    let r = exe_path(&None, "glrnvim-no-such-terminal-3f9", Platform::Linux);
    let e = r.unwrap_err();
    assert_eq!(e.kind(), ErrorKind::ExecutableNotFound);
    assert!(e
        .message()
        .starts_with("'glrnvim-no-such-terminal-3f9' executable cannot be found."));
}

#[test]
fn executable_on_the_search_path_is_found() {
    let r = find_executable("sh", Platform::Linux).unwrap();
    assert!(r.ends_with("/sh"));
}

#[test]
fn capitalize_touches_only_a_leading_ascii_letter() {
    assert_eq!(capitalize("alacritty"), "Alacritty");
    assert_eq!(capitalize("Kitty"), "Kitty");
    assert_eq!(capitalize("z"), "Z");
    assert_eq!(capitalize(""), "");
    assert_eq!(capitalize("9term"), "9term");
    assert_eq!(capitalize("éterm"), "éterm");
    assert_eq!(capitalize("aé"), "Aé");
}

#[test]
fn bundle_paths() {
    assert_eq!(
        bundle_executable("/Applications", "alacritty"),
        "/Applications/Alacritty.app/Contents/MacOS/alacritty"
    );
    assert_eq!(
        bundle_executable("/Users/me", "kitty"),
        "/Users/me/Kitty.app/Contents/MacOS/kitty"
    );
    assert_eq!(
        bundle_executable("/Users/me/", "kitty"),
        "/Users/me/Kitty.app/Contents/MacOS/kitty"
    );
    assert_eq!(bundle_executable("/", "kitty"), "/Kitty.app/Contents/MacOS/kitty");
    assert_eq!(bundle_executable("", "kitty"), "Kitty.app/Contents/MacOS/kitty");
}

#[test]
fn search_path_wins_everywhere() {
    for platform in [Platform::Linux, Platform::MacOs, Platform::Other] {
        let r = choose_executable(
            "kitty",
            platform,
            Ok("/usr/bin/kitty".to_string()),
            true,
            Some("/Users/me".to_string()),
            true,
        );
        assert_eq!(r.unwrap(), "/usr/bin/kitty");
    }
}

#[test]
fn bundles_are_a_fallback_on_macos_only() {
    let miss = || Err("cannot find binary path".to_string());
    let r = choose_executable("kitty", Platform::MacOs, miss(), true, Some("/Users/me".to_string()), true);
    assert_eq!(r.unwrap(), "/Applications/Kitty.app/Contents/MacOS/kitty");
    let r = choose_executable("kitty", Platform::MacOs, miss(), false, Some("/Users/me".to_string()), true);
    assert_eq!(r.unwrap(), "/Users/me/Kitty.app/Contents/MacOS/kitty");
    let r = choose_executable("kitty", Platform::MacOs, miss(), false, None, true);
    assert_eq!(r.unwrap_err().message(), "'kitty' executable cannot be found.");
    let r = choose_executable("kitty", Platform::MacOs, miss(), false, Some("/Users/me".to_string()), false);
    assert_eq!(r.unwrap_err().kind(), ErrorKind::ExecutableNotFound);
    let r = choose_executable("kitty", Platform::Linux, miss(), true, Some("/Users/me".to_string()), true);
    assert_eq!(
        r.unwrap_err().message(),
        "'kitty' executable cannot be found. cannot find binary path"
    );
}

#[test]
fn not_found_messages() {
    let e = not_found("foot", None);
    assert_eq!(e.kind(), ErrorKind::ExecutableNotFound);
    assert_eq!(e.message(), "'foot' executable cannot be found.");
    let e = not_found("foot", Some("why"));
    assert_eq!(e.message(), "'foot' executable cannot be found. why");
}
