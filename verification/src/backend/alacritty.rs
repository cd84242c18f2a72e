//! Alacritty: a TOML configuration, merged with the user's own.

use crate::backend::command::config_flag_texts;
use crate::backend::command::editor_arg_texts;
use crate::backend::command::push_config_flags;
use crate::backend::command::push_editor_args;
use crate::backend::command::ProcessDescriptor;
use crate::backend::command::APP_ID;
use crate::backend::hexquote::quote_hex_values;
use crate::backend::hexquote::quoted_text;
use crate::backend::locate::find_term_conf_files;
use crate::backend::locate::first_found_among;
use crate::backend::locate::found_among;
use crate::backend::locate::lemma_found_without_base;
use crate::backend::resolve::exe_path;
use crate::backend::resolve::not_found_message;
use crate::backend::resolve::resolution;
use crate::backend::Functions;
use crate::config::Config;
use crate::error::ErrorKind;
use crate::error::GlrnvimError;
use crate::host::var_texts;
use crate::host::Host;
use crate::host::Platform;
use crate::text::opt_str_text;
use crate::text::opt_text;
use crate::text::push_str;
use crate::text::texts;
use crate::toml::doc_as_table;
use crate::toml::doc_as_table_mut;
use crate::toml::doc_entries;
use crate::toml::doc_has_root_table;
use crate::toml::doc_is_rooted;
use crate::toml::doc_new;
use crate::toml::doc_parse;
use crate::toml::doc_text;
use crate::toml::doc_to_string;
use crate::toml::item_array;
use crate::toml::item_array_push;
use crate::toml::item_inline_insert;
use crate::toml::item_inline_table;
use crate::toml::item_integer;
use crate::toml::item_table;
use crate::toml::item_text;
use crate::toml::no_entries;
use crate::toml::table_contains_key;
use crate::toml::table_contains_table;
use crate::toml::table_entries;
use crate::toml::table_get_table_mut;
use crate::toml::table_insert;
use crate::toml::table_is_empty;
use crate::toml::table_new;
use crate::toml::table_remove;
use crate::toml::toml_error_text;
use crate::toml::toml_parse;
use crate::toml::Entries;
use crate::toml::TomlValue;
use vstd::prelude::*;

verus! {

/// The name of Alacritty's executable.
pub const ALACRITTY_NAME: &'static str = "alacritty";

/// A resolved Alacritty.
#[derive(Debug)]
pub struct Alacritty {
    pub exe_path: String,
}

/// The binding that maps the suspend key combination to no action.
pub open spec fn suspend_binding() -> TomlValue {
    TomlValue::Inline(
        no_entries().insert("key"@, TomlValue::Text("Z"@)).insert(
            "mods"@,
            TomlValue::Text("Control"@),
        ).insert("action"@, TomlValue::Text("None"@)),
    )
}

/// The keyboard section that every generated configuration carries.
pub open spec fn keyboard_section() -> TomlValue {
    TomlValue::Table(no_entries().insert("bindings"@, TomlValue::Array(seq![suspend_binding()])))
}

/// The section that sets the normal font's family.
pub open spec fn normal_font(family: Seq<char>) -> TomlValue {
    TomlValue::Table(no_entries().insert("family"@, TomlValue::Text(family)))
}

/// The entries of the document's font section; none where it has no such
/// section.
pub open spec fn font_entries(root: Entries) -> Entries {
    if root.contains_key("font"@) && root["font"@] is Table {
        root["font"@]->Table_0
    } else {
        no_entries()
    }
}

/// Whether the settings can be merged into the entries of a document: what
/// they hold under `font`, if anything, is a table.
pub open spec fn mergeable(root: Entries) -> bool {
    root.contains_key("font"@) ==> root["font"@] is Table
}

/// Whether the settings can be merged into a document: its root is a table,
/// and so is what that holds under `font`, if anything.
pub open spec fn mergeable_doc(doc: toml_edit::DocumentMut) -> bool {
    doc_is_rooted(doc) && mergeable(doc_entries(doc))
}

/// The font section after the merge: the size is set if one was chosen, the
/// normal family is set to the first font if there is one, and everything
/// else stays.
pub open spec fn merged_font(font: Entries, fonts: Seq<Seq<char>>, font_size: u8) -> Entries {
    let sized = if font_size > 0 {
        font.insert("size"@, TomlValue::Integer(font_size as int))
    } else {
        font
    };
    if fonts.len() > 0 {
        sized.insert("normal"@, normal_font(fonts[0]))
    } else {
        sized
    }
}

/// The document after the merge: the font section is merged, and left out
/// if it then holds nothing; the keyboard section is the fixed one; every
/// other entry stays as it is.
pub open spec fn merged(root: Entries, fonts: Seq<Seq<char>>, font_size: u8) -> Entries {
    let font = merged_font(font_entries(root), fonts, font_size);
    let with_font = if font =~= no_entries() {
        root.remove("font"@)
    } else {
        root.insert("font"@, TomlValue::Table(font))
    };
    with_font.insert("keyboard"@, keyboard_section())
}

/// The keys that the merge writes are pairwise different.
proof fn lemma_keys_differ()
    ensures
        "font"@ != "keyboard"@,
        "size"@ != "normal"@,
{
    reveal_strlit("font");
    reveal_strlit("keyboard");
    reveal_strlit("size");
    reveal_strlit("normal");
    assert("font"@.len() == 4);
    assert("keyboard"@.len() == 8);
    assert("size"@.len() == 4);
    assert("normal"@.len() == 6);
}

/// A chosen font size is the size of the merged font section, exactly.
pub proof fn lemma_merge_sets_size(root: Entries, fonts: Seq<Seq<char>>, font_size: u8)
    requires
        mergeable(root),
        font_size > 0,
    ensures
        merged(root, fonts, font_size).contains_key("font"@),
        font_entries(merged(root, fonts, font_size)).contains_key("size"@),
        font_entries(merged(root, fonts, font_size))["size"@] == TomlValue::Integer(
            font_size as int,
        ),
{
    lemma_keys_differ();
    let font = merged_font(font_entries(root), fonts, font_size);
    assert(font.contains_key("size"@));
    assert(!(font =~= no_entries()));
}

/// Without a chosen size, without fonts and without a font section of the
/// user's, the merged document has no font section.
pub proof fn lemma_merge_adds_no_empty_font(root: Entries)
    requires
        !root.contains_key("font"@),
    ensures
        !merged(root, Seq::empty(), 0).contains_key("font"@),
{
    lemma_keys_differ();
    assert(merged_font(font_entries(root), Seq::empty(), 0) =~= no_entries());
}

/// Of a list of fonts only the first becomes the normal family, however
/// long the list is.
pub proof fn lemma_merge_sets_first_font(root: Entries, fonts: Seq<Seq<char>>, font_size: u8)
    requires
        mergeable(root),
        fonts.len() > 0,
    ensures
        merged(root, fonts, font_size).contains_key("font"@),
        font_entries(merged(root, fonts, font_size)).contains_key("normal"@),
        font_entries(merged(root, fonts, font_size))["normal"@] == normal_font(fonts[0]),
        merged(root, fonts, font_size) == merged(root, seq![fonts[0]], font_size),
{
    lemma_keys_differ();
    let font = merged_font(font_entries(root), fonts, font_size);
    assert(font.contains_key("normal"@));
    assert(!(font =~= no_entries()));
    assert(merged_font(font_entries(root), seq![fonts[0]], font_size) == font);
}

/// With nothing to apply, the user's font section keeps its contents.
pub proof fn lemma_merge_keeps_font(root: Entries)
    requires
        mergeable(root),
    ensures
        font_entries(merged(root, Seq::empty(), 0)) == font_entries(root),
{
    lemma_keys_differ();
    let font = font_entries(root);
    assert(merged_font(font, Seq::empty(), 0) == font);
    if font =~= no_entries() {
        assert(font_entries(merged(root, Seq::empty(), 0)) =~= no_entries());
    } else {
        assert(merged(root, Seq::empty(), 0)["font"@] == TomlValue::Table(font));
    }
}

/// The merged document always holds the fixed keyboard section.
pub proof fn lemma_merge_sets_binding(root: Entries, fonts: Seq<Seq<char>>, font_size: u8)
    ensures
        merged(root, fonts, font_size).contains_key("keyboard"@),
        merged(root, fonts, font_size)["keyboard"@] == keyboard_section(),
{
}

/// The merge touches the font and keyboard sections only.
pub proof fn lemma_merge_keeps_others(
    root: Entries,
    fonts: Seq<Seq<char>>,
    font_size: u8,
    key: Seq<char>,
)
    requires
        key != "font"@,
        key != "keyboard"@,
    ensures
        merged(root, fonts, font_size).contains_key(key) == root.contains_key(key),
        root.contains_key(key) ==> merged(root, fonts, font_size)[key] == root[key],
{
}

/// Merges the generated settings into a document: the font size if one was
/// chosen, the first font as the normal family, and the binding that
/// disables the suspend key. A font section that ends up empty is removed.
pub fn merge(doc: &mut toml_edit::DocumentMut, fonts: &Vec<String>, font_size: u8)
    requires
        mergeable_doc(*old(doc)),
    ensures
        doc_is_rooted(*final(doc)),
        doc_entries(*final(doc)) == merged(doc_entries(*old(doc)), texts(fonts@), font_size),
{
    let ghost root0 = doc_entries(*doc);
    let root = doc_as_table_mut(doc);
    if !table_contains_key(root, "font") {
        table_insert(root, "font", item_table(table_new()));
    }
    let font = table_get_table_mut(root, "font");
    if font_size > 0 {
        table_insert(font, "size", item_integer(font_size as i64));
    }
    if fonts.len() > 0 {
        let mut normal = table_new();
        table_insert(&mut normal, "family", item_text(fonts[0].as_str()));
        table_insert(font, "normal", item_table(normal));
    }
    let unset = table_is_empty(font);
    let ghost font1 = table_entries(*font);
    if unset {
        table_remove(root, "font");
    }
    let mut binding = item_inline_table();
    item_inline_insert(&mut binding, "key", item_text("Z"));
    item_inline_insert(&mut binding, "mods", item_text("Control"));
    item_inline_insert(&mut binding, "action", item_text("None"));
    let mut bindings = item_array();
    item_array_push(&mut bindings, binding);
    let mut keyboard = table_new();
    table_insert(&mut keyboard, "bindings", bindings);
    table_insert(root, "keyboard", item_table(keyboard));
    proof {
        assert(font1 == merged_font(font_entries(root0), texts(fonts@), font_size));
        assert(Seq::<TomlValue>::empty().push(suspend_binding()) =~= seq![suspend_binding()]);
        assert(table_entries(*root) =~= merged(root0, texts(fonts@), font_size));
    }
}

/// What loading a configuration text gives: its entries where it parses; no
/// entries where there is no text, or where a text that was merely
/// discovered does not parse; `None`, a failure, where a text that the user
/// pointed at does not parse.
pub open spec fn loaded(content: Option<Seq<char>>, explicit: bool) -> Option<Entries> {
    match content {
        None => Some(no_entries()),
        Some(text) => match toml_parse(text) {
            Some(entries) => Some(entries),
            None => if explicit {
                None
            } else {
                Some(no_entries())
            },
        },
    }
}

/// The document that the merge starts from: the user's explicit
/// configuration; else the discovered one, if loading it was asked for;
/// else an empty document.
pub open spec fn base_conf(config: &Config, content: Option<Seq<char>>) -> Option<Entries> {
    if config.term_config_path is Some {
        loaded(content, true)
    } else if config.load_term_conf {
        loaded(content, false)
    } else {
        Some(no_entries())
    }
}

/// Parses the text of a terminal configuration, or starts from an empty
/// document where there is none. A text that does not parse is an error
/// where the user pointed at it, and is taken as absent otherwise.
pub fn load_alacritty_conf(content: Option<&str>, explicit: bool) -> (r: Result<
    toml_edit::DocumentMut,
    GlrnvimError,
>)
    ensures
        r matches Ok(d) ==> doc_is_rooted(d) && loaded(opt_str_text(content), explicit) == Some(
            doc_entries(d),
        ),
        r matches Err(e) ==> loaded(opt_str_text(content), explicit) is None && e.spec_kind()
            == ErrorKind::ConfigParse,
{
    match content {
        Some(text) => match doc_parse(text) {
            Ok(doc) => Ok(doc),
            Err(e) => {
                if explicit {
                    let mut m = String::from_str("Cannot parse the terminal configuration: ");
                    m.append(toml_error_text(&e).as_str());
                    Err(GlrnvimError::with_kind(ErrorKind::ConfigParse, m))
                } else {
                    Ok(doc_new())
                }
            },
        },
        None => Ok(doc_new()),
    }
}

/// The document that the merge starts from, given the text of the
/// configuration file that `conf_source` named.
pub fn create_base_conf(config: &Config, content: Option<&str>) -> (r: Result<
    toml_edit::DocumentMut,
    GlrnvimError,
>)
    ensures
        r matches Ok(d) ==> doc_is_rooted(d) && base_conf(config, opt_str_text(content)) == Some(
            doc_entries(d),
        ),
        r matches Err(e) ==> base_conf(config, opt_str_text(content)) is None && e.spec_kind()
            == ErrorKind::ConfigParse,
{
    if config.term_config_path.is_some() {
        load_alacritty_conf(content, true)
    } else if config.load_term_conf {
        load_alacritty_conf(content, false)
    } else {
        Ok(doc_new())
    }
}

/// The candidates for Alacritty's own configuration, by priority.
pub open spec fn default_candidate_texts() -> Seq<Seq<char>> {
    seq![
        "$XDG_CONFIG_HOME/alacritty/alacritty.toml"@,
        "$HOME/.config/alacritty/alacritty.toml"@,
        "$XDG_CONFIG_DIRS/alacritty/alacritty.toml"@,
    ]
}

/// The candidates for Alacritty's own configuration, by priority.
pub fn default_conf_candidates() -> (r: Vec<String>)
    ensures
        texts(r@) == default_candidate_texts(),
{
    let mut r: Vec<String> = Vec::new();
    push_str(&mut r, "$XDG_CONFIG_HOME/alacritty/alacritty.toml");
    push_str(&mut r, "$HOME/.config/alacritty/alacritty.toml");
    push_str(&mut r, "$XDG_CONFIG_DIRS/alacritty/alacritty.toml");
    assert(texts(r@) =~= default_candidate_texts());
    r
}

/// Alacritty's own configuration file, if one is found: at most one, the
/// first of the candidates that exists on this machine.
pub fn find_default_confs(host: &Host) -> (r: Vec<String>)
    ensures
        found_among(Seq::empty(), default_candidate_texts(), var_texts(host.vars@), texts(r@)),
        r@.len() <= 1,
{
    let base: Vec<String> = Vec::new();
    let priority = default_conf_candidates();
    assert(texts(base@) =~= Seq::<Seq<char>>::empty());
    find_term_conf_files(&base, &priority, host)
}

/// The configuration file to read before the merge, given the files that
/// were found: the explicit one; else the first found, if loading it was
/// asked for; else none.
pub open spec fn conf_source_of(config: &Config, found: Seq<Seq<char>>) -> Option<Seq<char>> {
    match opt_text(config.term_config_path) {
        Some(p) => Some(p),
        None => if config.load_term_conf && found.len() > 0 {
            Some(found[0])
        } else {
            None
        },
    }
}

/// Picks the configuration file to read before the merge among the files
/// that were found.
pub fn pick_conf_source(config: &Config, found: Vec<String>) -> (r: Option<String>)
    ensures
        opt_text(r) == conf_source_of(config, texts(found@)),
{
    match &config.term_config_path {
        Some(p) => Some(p.clone()),
        None => {
            if config.load_term_conf && found.len() > 0 {
                Some(found[0].clone())
            } else {
                None
            }
        },
    }
}

/// The configuration file to read before the merge: the explicit one; else,
/// if loading it was asked for, the first of the candidates that exists on
/// this machine, if any does; else none.
pub fn conf_source(config: &Config, host: &Host) -> (r: Option<String>)
    ensures
        config.term_config_path matches Some(p) ==> opt_text(r) == Some(p@),
        config.term_config_path is None && !config.load_term_conf ==> r is None,
        config.term_config_path is None && config.load_term_conf ==> first_found_among(
            default_candidate_texts(),
            var_texts(host.vars@),
            opt_text(r),
        ),
{
    if config.term_config_path.is_some() || !config.load_term_conf {
        return pick_conf_source(config, Vec::new());
    }
    let found = find_default_confs(host);
    proof {
        lemma_found_without_base(default_candidate_texts(), var_texts(host.vars@), texts(found@));
    }
    pick_conf_source(config, found)
}

/// Serialises a document: its TOML text, with every bare hexadecimal value
/// put in quotes.
pub fn serialize(doc: &toml_edit::DocumentMut) -> (s: String)
    requires
        doc_is_rooted(*doc),
    ensures
        s@ == quoted_text(doc_text(*doc)),
{
    quote_hex_values(doc_to_string(doc).as_str())
}

/// Whether the settings can be merged into the document.
pub fn can_merge(doc: &toml_edit::DocumentMut) -> (r: bool)
    ensures
        r == mergeable_doc(*doc),
{
    if !doc_has_root_table(doc) {
        return false;
    }
    let root = doc_as_table(doc);
    !table_contains_key(root, "font") || table_contains_table(root, "font")
}

/// Merges the generated settings into the document and returns the text of
/// the configuration file to generate. A document whose root or whose
/// `font` entry is no table is refused and left as it is.
pub fn create_conf_file(doc: &mut toml_edit::DocumentMut, config: &Config) -> (r: Result<
    String,
    GlrnvimError,
>)
    ensures
        mergeable_doc(*old(doc)) ==> (r matches Ok(s) && s@ == quoted_text(doc_text(*final(doc))))
            && doc_is_rooted(*final(doc))
            && doc_entries(*final(doc)) == merged(
            doc_entries(*old(doc)),
            config.font_names(),
            config.font_size,
        ),
        !mergeable_doc(*old(doc)) ==> (r matches Err(e) && e.spec_kind()
            == ErrorKind::ConfigParse) && *final(doc) == *old(doc),
{
    if !can_merge(doc) {
        return Err(
            GlrnvimError::with_kind(
                ErrorKind::ConfigParse,
                String::from_str(
                    "The terminal configuration, or its 'font' entry, is not a table.",
                ),
            ),
        );
    }
    merge(doc, &config.fonts, config.font_size);
    Ok(serialize(doc))
}

/// Resolves Alacritty's executable: the configured path as it is, else what the
/// search for its name finds.
pub fn init(config: &Config, platform: Platform) -> (r: Result<Alacritty, GlrnvimError>)
    ensures
        resolution(
            opt_text(config.term_exe_path),
            ALACRITTY_NAME@,
            platform,
            match r {
                Ok(t) => Ok(t.exe_path@),
                Err(e) => Err(e.spec_message()),
            },
        ),
        config.term_exe_path matches Some(p) ==> r matches Ok(a) && a.exe_path@ == p@,
        r matches Err(e) ==> e.spec_kind() == ErrorKind::ExecutableNotFound && exists|
            detail: Option<Seq<char>>,
        | e.spec_message() == #[trigger] not_found_message(ALACRITTY_NAME@, detail),
{
    match exe_path(&config.term_exe_path, ALACRITTY_NAME, platform) {
        Ok(exe_path) => Ok(Alacritty { exe_path }),
        Err(e) => Err(e),
    }
}

/// Alacritty's arguments: the configuration flag, the window class, the
/// working directory where it is known, then the editor.
pub open spec fn alacritty_args(
    explicit: Option<Seq<char>>,
    generated: Option<Seq<char>>,
    current_dir: Option<Seq<char>>,
    editor: Seq<char>,
) -> Seq<Seq<char>> {
    config_flag_texts("--config-file"@, explicit, false, Seq::empty(), generated) + seq![
        "--class"@,
        APP_ID@,
    ] + (match current_dir {
        Some(d) => seq!["--working-directory"@, d],
        None => Seq::empty(),
    }) + seq!["-e"@] + editor_arg_texts(editor)
}

impl Functions for Alacritty {
    open spec fn exe_text(&self) -> Seq<char> {
        self.exe_path@
    }

    open spec fn command_args(
        &self,
        config: &Config,
        discovered: Seq<Seq<char>>,
        generated: Option<Seq<char>>,
        host: &Host,
    ) -> Seq<Seq<char>> {
        alacritty_args(
            opt_text(config.term_config_path),
            generated,
            opt_text(host.current_dir),
            config.nvim_exe_path@,
        )
    }

    /// Assembles the invocation. `generated` is the path of the file that
    /// holds the text of `create_conf_file`; `discovered` is not used, since
    /// the user's configuration is merged into that file.
    fn create_command(
        &self,
        config: &Config,
        discovered: &Vec<String>,
        generated: &Option<String>,
        host: &Host,
    ) -> (r: ProcessDescriptor) {
        let mut args: Vec<String> = Vec::new();
        let none: Vec<String> = Vec::new();
        assert(texts(none@) =~= Seq::<Seq<char>>::empty());
        push_config_flags(
            &mut args,
            "--config-file",
            &config.term_config_path,
            false,
            &none,
            generated,
        );
        push_str(&mut args, "--class");
        push_str(&mut args, APP_ID);
        match &host.current_dir {
            Some(d) => {
                push_str(&mut args, "--working-directory");
                push_str(&mut args, d.as_str());
            },
            None => {},
        }
        push_str(&mut args, "-e");
        push_editor_args(&mut args, config.nvim_exe_path.as_str());
        proof {
            assert(texts(args@) =~= alacritty_args(
                opt_text(config.term_config_path),
                opt_text(*generated),
                opt_text(host.current_dir),
                config.nvim_exe_path@,
            ));
        }
        ProcessDescriptor { exe: self.exe_path.clone(), args }
    }
}

} // verus!
