use glrnvim::backend::alacritty::can_merge;
use glrnvim::backend::alacritty::create_base_conf;
use glrnvim::backend::alacritty::create_conf_file;
use glrnvim::backend::alacritty::load_alacritty_conf;
use glrnvim::backend::alacritty::merge;
use glrnvim::backend::alacritty::serialize;
use glrnvim::backend::alacritty::Alacritty;
use glrnvim::backend::Functions;
use glrnvim::config::Backend;
use glrnvim::config::Config;
use glrnvim::error::ErrorKind;
use glrnvim::host::Host;
use glrnvim::host::Platform;
use toml_edit::value;
use toml_edit::DocumentMut;
use toml_edit::Item;
use toml_edit::Table;

const BINDING: &str = "[keyboard]\nbindings = [{ key = \"Z\", mods = \"Control\", action = \"None\" }]\n";

#[test]
fn test_create_basic_alacritty_conf() {
    let conf = Config {
        backend: Some(Backend::Alacritty),
        font_size: 14,
        fonts: vec!["test_font".to_string()],
        ..Default::default()
    };
    let result = create_conf_file(&mut DocumentMut::new(), &conf);
    assert!(result.is_ok());
    let expected = r#"[font]
size = 14

[font.normal]
family = "test_font"

[keyboard]
bindings = [{ key = "Z", mods = "Control", action = "None" }]
"#;
    assert_eq!(result.unwrap_or_default(), expected)
}

#[test]
fn test_overwrite_alacritty_conf() {
    let mut term_conf = DocumentMut::new();
    let mut font_mapping = Table::new();
    font_mapping.insert("size", value(42));
    term_conf.insert("font", Item::Table(font_mapping));

    let conf = Config {
        backend: Some(Backend::Alacritty),
        font_size: 14,
        fonts: vec!["test_font".to_string()],
        ..Default::default()
    };
    let result = create_conf_file(&mut term_conf, &conf);
    assert!(result.is_ok());
    let expected = r#"[font]
size = 14

[font.normal]
family = "test_font"

[keyboard]
bindings = [{ key = "Z", mods = "Control", action = "None" }]
"#;
    assert_eq!(result.unwrap_or_default(), expected)
}

#[test]
fn test_not_overwrite_alacritty_conf() {
    let mut term_conf = DocumentMut::new();
    let mut font_mapping = Table::new();
    font_mapping.insert("size", value(42));
    term_conf.insert("font", Item::Table(font_mapping));

    let mut conf = Config::default();
    conf.backend = Some(Backend::Alacritty);
    let result = create_conf_file(&mut term_conf, &conf);
    assert!(result.is_ok());
    let expected = r#"[font]
size = 42

[keyboard]
bindings = [{ key = "Z", mods = "Control", action = "None" }]
"#;
    assert_eq!(result.unwrap_or_default(), expected)
}

#[test]
fn test_hex_value_serialize() {
    let mut term_conf = DocumentMut::new();
    let mut primary = Table::new();
    let mut colors = Table::new();
    primary.insert("background", value("0x424242".to_string()));
    colors.insert("primary", Item::Table(primary));
    term_conf.insert("colors", Item::Table(colors));

    let conf = Config {
        backend: Some(Backend::Alacritty),
        ..Default::default()
    };
    let result = create_conf_file(&mut term_conf, &conf);
    assert!(result.is_ok());
    let expected = r#"[colors]

[colors.primary]
background = "0x424242"

[keyboard]
bindings = [{ key = "Z", mods = "Control", action = "None" }]
"#;
    assert_eq!(result.unwrap_or_default(), expected)
}

#[test]
fn test_term_config_path() {
    let term_conf = r#"[env]
TERM = "some"

[font]
size = 16
"#;
    let conf = Config {
        backend: Some(Backend::Alacritty),
        term_config_path: Some("/some/alacritty.toml".to_string()),
        font_size: 14,
        fonts: vec!["test_font".to_string()],
        ..Default::default()
    };
    let base_conf = create_base_conf(&conf, Some(term_conf));
    assert!(base_conf.is_ok());
    let mut base_conf = base_conf.unwrap();
    let result = create_conf_file(&mut base_conf, &conf);
    assert!(result.is_ok());
    let expected = r#"[env]
TERM = "some"

[font]
size = 14

[font.normal]
family = "test_font"

[keyboard]
bindings = [{ key = "Z", mods = "Control", action = "None" }]
"#;
    assert_eq!(result.unwrap_or_default(), expected)
}

#[test]
fn merge_without_settings_adds_only_the_binding() {
    let mut doc = DocumentMut::new();
    merge(&mut doc, &Vec::new(), 0);
    assert!(!doc.contains_key("font"));
    assert_eq!(serialize(&doc), BINDING);
}

#[test]
fn merge_sets_exactly_the_chosen_size() {
    for size in [1u8, 12, 255] {
        let mut doc = DocumentMut::new();
        merge(&mut doc, &Vec::new(), size);
        assert_eq!(doc["font"]["size"].as_integer(), Some(i64::from(size)));
        assert!(doc["font"].get("normal").is_none());
    }
}

#[test]
fn merge_uses_only_the_first_font() {
    let fonts = vec!["First".to_string(), "Second".to_string(), "Third".to_string()];
    let mut doc = DocumentMut::new();
    merge(&mut doc, &fonts, 0);
    assert_eq!(doc["font"]["normal"]["family"].as_str(), Some("First"));
    let text = serialize(&doc);
    assert!(!text.contains("Second"));
    assert!(!text.contains("Third"));
    assert_eq!(
        text,
        format!("[font]\n\n[font.normal]\nfamily = \"First\"\n\n{}", BINDING)
    );
}

#[test]
fn merge_with_nothing_to_apply_keeps_the_font_section() {
    let source = "[font]\nsize = 9 # small\noffset = { x = 1, y = 2 }\n\n[font.bold]\nfamily = \"B\"\n";
    let mut doc: DocumentMut = source.parse().unwrap();
    merge(&mut doc, &Vec::new(), 0);
    assert_eq!(serialize(&doc), format!("{}\n{}", source, BINDING));
}

#[test]
fn merge_removes_a_font_section_left_empty() {
    let mut doc: DocumentMut = "[font]\n\n[env]\nTERM = \"x\"\n".parse().unwrap();
    merge(&mut doc, &Vec::new(), 0);
    assert!(!doc.contains_key("font"));
    assert_eq!(doc["env"]["TERM"].as_str(), Some("x"));
}

#[test]
fn merge_replaces_the_users_keyboard_section() {
    let mut doc: DocumentMut = "[keyboard]\nbindings = []\nother = 1\n".parse().unwrap();
    merge(&mut doc, &Vec::new(), 0);
    let bindings = doc["keyboard"]["bindings"].as_array().unwrap();
    assert_eq!(bindings.len(), 1);
    let binding = bindings.get(0).unwrap().as_inline_table().unwrap();
    assert_eq!(binding.get("key").and_then(|v| v.as_str()), Some("Z"));
    assert_eq!(binding.get("mods").and_then(|v| v.as_str()), Some("Control"));
    assert_eq!(binding.get("action").and_then(|v| v.as_str()), Some("None"));
    assert!(doc["keyboard"].get("other").is_none());
}

#[test]
fn merge_keeps_the_other_sections_as_they_are() {
    let source = "# my colours\n[colors.primary]\nbackground = \"0x1d1f21\" # dark\n\n[env]\nTERM = \"xterm-256color\"\n";
    let mut doc: DocumentMut = source.parse().unwrap();
    merge(&mut doc, &vec!["Mono".to_string()], 11);
    let text = serialize(&doc);
    assert!(text.starts_with(source));
    assert!(text.ends_with(BINDING));
}

#[test]
fn hex_looking_string_is_a_string_after_a_round_trip() {
    let mut doc = DocumentMut::new();
    let mut primary = Table::new();
    let mut colors = Table::new();
    primary.insert("background", value("0x424242"));
    colors.insert("primary", Item::Table(primary));
    doc.insert("colors", Item::Table(colors));
    let conf = Config::default();
    let text = create_conf_file(&mut doc, &conf).unwrap();
    let again = load_alacritty_conf(Some(text.as_str()), true).unwrap();
    let item = &again["colors"]["primary"]["background"];
    assert!(item.is_str());
    assert!(!item.is_integer());
    assert_eq!(item.as_str(), Some("0x424242"));
}

#[test]
fn mono_14_without_terminal_config_gives_font_and_binding_only() {
    let conf = Config {
        fonts: vec!["Mono".to_string()],
        font_size: 14,
        load_term_conf: false,
        ..Default::default()
    };
    let mut doc = create_base_conf(&conf, None).unwrap();
    let text = create_conf_file(&mut doc, &conf).unwrap();
    assert_eq!(
        text,
        format!(
            "[font]\nsize = 14\n\n[font.normal]\nfamily = \"Mono\"\n\n{}",
            BINDING
        )
    );
    let keys: Vec<String> = doc.iter().map(|(k, _)| k.to_string()).collect();
    assert_eq!(keys, vec!["font", "keyboard"]);
}

#[test]
fn font_entry_that_is_no_table_is_refused() {
    let mut doc: DocumentMut = "font = \"Mono\"\n".parse().unwrap();
    assert!(!can_merge(&doc));
    let conf = Config { font_size: 14, ..Default::default() };
    let result = create_conf_file(&mut doc, &conf);
    assert_eq!(result.unwrap_err().kind(), ErrorKind::ConfigParse);
    assert_eq!(doc.to_string(), "font = \"Mono\"\n");

    let mut inline: DocumentMut = "font = { size = 3 }\n".parse().unwrap();
    assert!(!can_merge(&inline));
    assert!(create_conf_file(&mut inline, &conf).is_err());

    let dotted: DocumentMut = "font.size = 3\n".parse().unwrap();
    assert!(can_merge(&dotted));
    assert!(can_merge(&DocumentMut::new()));
}

#[test]
fn document_without_a_root_table_is_refused() {
    let mut doc = DocumentMut::new();
    *doc.as_item_mut() = value(3);
    assert!(!can_merge(&doc));
    let conf = Config { font_size: 14, ..Default::default() };
    let result = create_conf_file(&mut doc, &conf);
    assert_eq!(result.unwrap_err().kind(), ErrorKind::ConfigParse);
    assert_eq!(doc.as_item().as_integer(), Some(3));

    let mut none = DocumentMut::new();
    *none.as_item_mut() = Item::None;
    assert!(!can_merge(&none));
    assert!(create_conf_file(&mut none, &conf).is_err());
}

#[test]
fn explicit_config_that_does_not_parse_is_fatal() {
    let result = load_alacritty_conf(Some("[font\nsize = "), true);
    assert_eq!(result.unwrap_err().kind(), ErrorKind::ConfigParse);
}

#[test]
fn discovered_config_that_does_not_parse_counts_as_absent() {
    let doc = load_alacritty_conf(Some("[font\nsize = "), false).unwrap();
    assert_eq!(doc.to_string(), "");
    let none = load_alacritty_conf(None, false).unwrap();
    assert_eq!(none.to_string(), "");
}

#[test]
fn base_conf_follows_the_configuration() {
    let text = "[font]\nsize = 16\n";
    let ignore = Config::default();
    assert_eq!(create_base_conf(&ignore, Some(text)).unwrap().to_string(), "");
    let load = Config { load_term_conf: true, ..Default::default() };
    assert_eq!(create_base_conf(&load, Some(text)).unwrap().to_string(), text);
    assert_eq!(create_base_conf(&load, Some("= =")).unwrap().to_string(), "");
    let explicit = Config {
        backend: Some(Backend::Alacritty),
        term_config_path: Some("/x.toml".to_string()),
        ..Default::default()
    };
    assert_eq!(create_base_conf(&explicit, Some(text)).unwrap().to_string(), text);
    assert!(create_base_conf(&explicit, Some("= =")).is_err());
}

#[test]
fn alacritty_command_with_generated_config() {
    let term = Alacritty { exe_path: "/usr/bin/alacritty".to_string() };
    let conf = Config { nvim_exe_path: "nvim".to_string(), ..Default::default() };
    let host = Host { platform: Platform::Linux, current_dir: Some("/work".to_string()), vars: Vec::new() };
    let cmd = term.create_command(&conf, &Vec::new(), &Some("/tmp/gen.toml".to_string()), &host);
    assert_eq!(cmd.exe, "/usr/bin/alacritty");
    assert_eq!(
        cmd.args,
        vec![
            "--config-file",
            "/tmp/gen.toml",
            "--class",
            "glrnvim",
            "--working-directory",
            "/work",
            "-e",
            "nvim",
            "+set termguicolors",
            "+set title",
            "--cmd",
            "let g:glrnvim_gui=1",
        ]
    );
}

#[test]
fn alacritty_command_without_working_directory() {
    let term = Alacritty { exe_path: "alacritty".to_string() };
    let conf = Config { nvim_exe_path: "/opt/nvim".to_string(), ..Default::default() };
    let host = Host { platform: Platform::Other, current_dir: None, vars: Vec::new() };
    let cmd = term.create_command(&conf, &Vec::new(), &Some("/tmp/g".to_string()), &host);
    assert_eq!(
        cmd.args,
        vec![
            "--config-file",
            "/tmp/g",
            "--class",
            "glrnvim",
            "-e",
            "/opt/nvim",
            "+set termguicolors",
            "+set title",
            "--cmd",
            "let g:glrnvim_gui=1",
        ]
    );
}

#[test]
fn alacritty_command_with_explicit_config_never_names_the_generated_file() {
    let term = Alacritty { exe_path: "alacritty".to_string() };
    let conf = Config {
        backend: Some(Backend::Alacritty),
        term_config_path: Some("/home/u/my.toml".to_string()),
        load_term_conf: true,
        ..Default::default()
    };
    let host = Host { platform: Platform::Linux, current_dir: None, vars: Vec::new() };
    let cmd = term.create_command(&conf, &Vec::new(), &Some("/tmp/generated".to_string()), &host);
    let flags = cmd.args.iter().filter(|a| a.as_str() == "--config-file").count();
    assert_eq!(flags, 1);
    assert_eq!(cmd.args[0], "--config-file");
    assert_eq!(cmd.args[1], "/home/u/my.toml");
    assert!(!cmd.args.iter().any(|a| a == "/tmp/generated"));
}
