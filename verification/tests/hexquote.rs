use glrnvim::backend::alacritty::create_conf_file;
use glrnvim::backend::alacritty::load_alacritty_conf;
use glrnvim::backend::alacritty::serialize;
use glrnvim::backend::hexquote::find_bare_hex_value;
use glrnvim::backend::hexquote::quote_hex_values;
use glrnvim::config::Config;
use glrnvim::text::chars_of;
use glrnvim::text::string_of;
use toml_edit::DocumentMut;

#[test]
fn bare_hex_value_is_quoted() {
    assert_eq!(quote_hex_values("background = 0x424242"), "background = \"0x424242\"");
    assert_eq!(quote_hex_values("background = 0x424242\n"), "background = \"0x424242\"\n");
    assert_eq!(quote_hex_values("a=0xFf"), "a=\"0xFf\"");
    assert_eq!(quote_hex_values("a =\t 0x0"), "a =\t \"0x0\"");
}

#[test]
fn what_follows_the_value_is_kept() {
    assert_eq!(
        quote_hex_values("background = 0x1d1f21 # dark\n"),
        "background = \"0x1d1f21\" # dark\n"
    );
    assert_eq!(quote_hex_values("a = 0x12#c"), "a = \"0x12\"#c");
    assert_eq!(quote_hex_values("a = 0x12  \r\nb = 1\r\n"), "a = \"0x12\"  \r\nb = 1\r\n");
    assert_eq!(quote_hex_values("a = 0x12\r\n"), "a = \"0x12\"\r\n");
}

#[test]
fn every_line_is_looked_at() {
    let text = "[colors.primary]\nbackground = 0x1d1f21\nforeground = 0xc5c8c6\n\n[font]\nsize = 14\n";
    let expected = "[colors.primary]\nbackground = \"0x1d1f21\"\nforeground = \"0xc5c8c6\"\n\n[font]\nsize = 14\n";
    assert_eq!(quote_hex_values(text), expected);
}

#[test]
fn other_lines_are_left_alone() {
    for text in [
        "",
        "\n",
        "\n\n",
        "background = \"0x424242\"\n",
        "background = '0x424242'\n",
        "size = 14\n",
        "size = 0\n",
        "a = 0x\n",
        "a = 0xg1\n",
        "a = 0x12_34\n",
        "a = 0x12g\n",
        "a = 0o17\n",
        "a = 10x12\n",
        "0x12\n",
        "# colour = 0x12 is wrong\n# so quote it",
        "primary = { background = 0x12 }\n",
        "list = [0x12, 0x13]\n",
        "\"a=b\" = 0x12\n",
        "title = \"x = 0x12\"\n",
        "[section]\nkey = \"value\" # = 0x12\n",
        "no equals sign here\n",
        "bindings = [{ key = \"Z\", mods = \"Control\", action = \"None\" }]\n",
    ] {
        assert_eq!(quote_hex_values(text), text, "{:?}", text);
    }
}

#[test]
fn nothing_is_quoted_from_a_string_of_several_lines_on() {
    for text in [
        "a = \"\"\"\nk = 0x12\nb\"\"\"\nc = 0x34\n",
        "a = \'\'\'\nk = 0x12\n\'\'\'\n",
        "k = 0x12 # \"\"\"\n",
        "\"\"\"",
    ] {
        assert_eq!(quote_hex_values(text), text, "{:?}", text);
    }
    assert_eq!(
        quote_hex_values("x = 0x1\ny = 0x2\na = \"\"\"\nk = 0x12\n\"\"\"\nz = 0x3\n"),
        "x = \"0x1\"\ny = \"0x2\"\na = \"\"\"\nk = 0x12\n\"\"\"\nz = 0x3\n"
    );
    assert_eq!(quote_hex_values("a = \"\"\nk = 0x12\n"), "a = \"\"\nk = \"0x12\"\n");
}

#[test]
fn string_of_several_lines_is_the_same_string_after_a_round_trip() {
    for s in ["0x1\nk = 0x12\nb", "a\nk = 0x12\n", "0x12", "k = 0x12", "\nx = 0xAB # c\n\ny = 0x1"] {
        let mut doc = DocumentMut::new();
        doc.insert("first", toml_edit::value(7));
        doc.insert("text", toml_edit::value(s));
        let text = create_conf_file(&mut doc, &Config::default()).unwrap();
        let again = load_alacritty_conf(Some(text.as_str()), true).unwrap();
        assert_eq!(again["text"].as_str(), Some(s), "{:?}", text);
        assert_eq!(again["first"].as_integer(), Some(7));
    }
}

#[test]
fn quoting_twice_is_quoting_once() {
    for text in [
        "a = 0x12\nb = 0x34 # c\n\nc = \"0x56\"\nd = 1",
        "a = 0x12",
        "x\n=\n0x12\n",
        "= 0x1\n= 0x2\n",
    ] {
        let once = quote_hex_values(text);
        assert_eq!(quote_hex_values(&once), once);
    }
}

#[test]
fn non_ascii_text_is_kept() {
    assert_eq!(
        quote_hex_values("título = \"añil\" # ü\ncolor = 0xAB\n"),
        "título = \"añil\" # ü\ncolor = \"0xAB\"\n"
    );
}

#[test]
fn bare_value_positions() {
    let line: Vec<char> = "bg  =   0x12ab # c".chars().collect();
    assert_eq!(find_bare_hex_value(&line), Some((8, 14)));
    let line: Vec<char> = "bg = 12".chars().collect();
    assert_eq!(find_bare_hex_value(&line), None);
    assert_eq!(find_bare_hex_value(&Vec::new()), None);
    let line: Vec<char> = "=0x1".chars().collect();
    assert_eq!(find_bare_hex_value(&line), Some((1, 4)));
    let line: Vec<char> = "a = 0x".chars().collect();
    assert_eq!(find_bare_hex_value(&line), None);
    let line: Vec<char> = "a =".chars().collect();
    assert_eq!(find_bare_hex_value(&line), None);
}

#[test]
fn characters_and_strings() {
    assert_eq!(chars_of("añ\n0"), vec!['a', 'ñ', '\n', '0']);
    assert!(chars_of("").is_empty());
    assert_eq!(string_of(&vec!['x', 'é', '"']), "xé\"");
    assert_eq!(string_of(&Vec::new()), "");
}

#[test]
fn bare_hex_colour_of_the_user_is_a_string_after_serialising() {
    let mut doc: DocumentMut = "[colors.primary]\nbackground = 0x424242\n".parse().unwrap();
    assert!(doc["colors"]["primary"]["background"].is_integer());
    let text = create_conf_file(&mut doc, &Config::default()).unwrap();
    assert!(text.starts_with("[colors.primary]\nbackground = \"0x424242\"\n"));
    let again = load_alacritty_conf(Some(text.as_str()), true).unwrap();
    assert_eq!(again["colors"]["primary"]["background"].as_str(), Some("0x424242"));
    assert_eq!(serialize(&again), text);
}
