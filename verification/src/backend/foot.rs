//! Foot: an INI configuration, merged with the user's own.

use crate::backend::command::config_flag_texts;
use crate::backend::command::editor_arg_texts;
use crate::backend::command::push_config_flags;
use crate::backend::command::push_editor_args;
use crate::backend::command::ProcessDescriptor;
use crate::backend::command::APP_ID;
use crate::backend::locate::find_term_conf_files;
use crate::backend::locate::first_found_among;
use crate::backend::locate::found_among;
use crate::backend::locate::lemma_found_without_base;
use crate::backend::resolve::exe_path;
use crate::backend::resolve::not_found_message;
use crate::backend::resolve::resolution;
use crate::backend::Functions;
use crate::config::Config;
use crate::error::ErrorKind;
use crate::error::GlrnvimError;
use crate::host::var_texts;
use crate::host::Host;
use crate::host::Platform;
use crate::inifile::ini_load;
use crate::inifile::ini_new;
use crate::inifile::ini_parse;
use crate::inifile::ini_set;
use crate::inifile::ini_text;
use crate::inifile::ini_to_string;
use crate::inifile::ini_values;
use crate::inifile::no_values;
use crate::inifile::IniValues;
use crate::text::decimal;
use crate::text::opt_str_text;
use crate::text::opt_text;
use crate::text::push_str;
use crate::text::texts;
use crate::text::u8_to_decimal;
use vstd::prelude::*;

verus! {

/// The name of Foot's executable.
pub const FOOT_NAME: &'static str = "foot";

/// A resolved Foot.
#[derive(Debug)]
pub struct Foot {
    pub exe_path: String,
}

/// The font setting: the fonts separated by commas, each with the size if
/// one was chosen.
pub open spec fn foot_fonts(fonts: Seq<Seq<char>>, font_size: u8) -> Seq<char>
    decreases fonts.len(),
{
    if fonts.len() == 0 {
        Seq::empty()
    } else {
        let head = foot_fonts(fonts.drop_last(), font_size);
        (if head.len() > 0 {
            head + ","@
        } else {
            head
        }) + fonts.last() + (if font_size != 0 {
            ":size="@ + decimal(font_size as nat)
        } else {
            Seq::empty()
        })
    }
}

/// The values after the merge: the font setting of the main section is
/// replaced if there is one to apply; the suspend key combination is kept
/// from the application, whatever was bound before; everything else stays.
pub open spec fn foot_merged(values: IniValues, fonts: Seq<Seq<char>>, font_size: u8) -> IniValues {
    let font = foot_fonts(fonts, font_size);
    let with_font = if font.len() > 0 {
        values.insert((Some("main"@), "font"@), font)
    } else {
        values
    };
    with_font.insert((Some("key-bindings"@), "noop"@), "Control+z"@)
}

/// Every merged configuration keeps the suspend key combination from the
/// application.
pub proof fn lemma_merge_sets_binding(values: IniValues, fonts: Seq<Seq<char>>, font_size: u8)
    ensures
        foot_merged(values, fonts, font_size).contains_key((Some("key-bindings"@), "noop"@)),
        foot_merged(values, fonts, font_size)[(Some("key-bindings"@), "noop"@)] == "Control+z"@,
{
}

/// The merge touches the font setting and the binding only.
pub proof fn lemma_merge_keeps_others(
    values: IniValues,
    fonts: Seq<Seq<char>>,
    font_size: u8,
    section: Option<Seq<char>>,
    key: Seq<char>,
)
    requires
        (section, key) != (Some("main"@), "font"@),
        (section, key) != (Some("key-bindings"@), "noop"@),
    ensures
        foot_merged(values, fonts, font_size).contains_key((section, key)) == values.contains_key(
            (section, key),
        ),
        values.contains_key((section, key)) ==> foot_merged(values, fonts, font_size)[(
            section,
            key,
        )] == values[(section, key)],
{
}

/// What loading a configuration text gives: its values where it parses, and
/// no values where there is no text or it does not parse.
pub open spec fn foot_loaded(content: Option<Seq<char>>) -> IniValues {
    match content {
        Some(text) => match ini_parse(text) {
            Some(values) => values,
            None => no_values(),
        },
        None => no_values(),
    }
}

/// The values that the merge starts from: the discovered configuration, if
/// loading it was asked for; else none.
pub open spec fn foot_base_conf(config: &Config, content: Option<Seq<char>>) -> IniValues {
    if config.load_term_conf {
        foot_loaded(content)
    } else {
        no_values()
    }
}

/// Foot's arguments: the configuration flag, the application id, then the
/// editor.
pub open spec fn foot_args(
    explicit: Option<Seq<char>>,
    generated: Option<Seq<char>>,
    editor: Seq<char>,
) -> Seq<Seq<char>> {
    config_flag_texts("--config"@, explicit, false, Seq::empty(), generated) + seq![
        "--app-id"@,
        APP_ID@,
    ] + editor_arg_texts(editor)
}

/// Resolves Foot's executable: the configured path as it is, else what the
/// search for its name finds.
pub fn init(config: &Config, platform: Platform) -> (r: Result<Foot, GlrnvimError>)
    ensures
        resolution(
            opt_text(config.term_exe_path),
            FOOT_NAME@,
            platform,
            match r {
                Ok(t) => Ok(t.exe_path@),
                Err(e) => Err(e.spec_message()),
            },
        ),
        config.term_exe_path matches Some(p) ==> r matches Ok(a) && a.exe_path@ == p@,
        r matches Err(e) ==> e.spec_kind() == ErrorKind::ExecutableNotFound && exists|
            detail: Option<Seq<char>>,
        | e.spec_message() == #[trigger] not_found_message(FOOT_NAME@, detail),
{
    match exe_path(&config.term_exe_path, FOOT_NAME, platform) {
        Ok(exe_path) => Ok(Foot { exe_path }),
        Err(e) => Err(e),
    }
}

/// The candidates for Foot's own configuration, by priority.
pub open spec fn default_candidate_texts() -> Seq<Seq<char>> {
    seq![
        "$XDG_CONFIG_HOME/foot/foot.conf"@,
        "$HOME/.config/foot/foot.conf"@,
        "$XDG_CONFIG_DIRS/foot/foot.conf"@,
    ]
}

/// The candidates for Foot's own configuration, by priority.
pub fn default_conf_candidates() -> (r: Vec<String>)
    ensures
        texts(r@) == default_candidate_texts(),
{
    let mut r: Vec<String> = Vec::new();
    push_str(&mut r, "$XDG_CONFIG_HOME/foot/foot.conf");
    push_str(&mut r, "$HOME/.config/foot/foot.conf");
    push_str(&mut r, "$XDG_CONFIG_DIRS/foot/foot.conf");
    assert(texts(r@) =~= default_candidate_texts());
    r
}

/// Foot's own configuration file, if one is found: at most one, the first
/// of the candidates that exists on this machine.
pub fn find_default_confs(host: &Host) -> (r: Vec<String>)
    ensures
        found_among(Seq::empty(), default_candidate_texts(), var_texts(host.vars@), texts(r@)),
        r@.len() <= 1,
{
    let base: Vec<String> = Vec::new();
    let priority = default_conf_candidates();
    assert(texts(base@) =~= Seq::<Seq<char>>::empty());
    find_term_conf_files(&base, &priority, host)
}

/// The configuration file to read before the merge, given the files that
/// were found: none where the user points at a configuration of their own
/// or does not ask for the default one; else the first found.
pub open spec fn conf_source_of(config: &Config, found: Seq<Seq<char>>) -> Option<Seq<char>> {
    if config.term_config_path is None && config.load_term_conf && found.len() > 0 {
        Some(found[0])
    } else {
        None
    }
}

/// Picks the configuration file to read before the merge among the files
/// that were found.
pub fn pick_conf_source(config: &Config, found: Vec<String>) -> (r: Option<String>)
    ensures
        opt_text(r) == conf_source_of(config, texts(found@)),
{
    if config.term_config_path.is_none() && config.load_term_conf && found.len() > 0 {
        Some(found[0].clone())
    } else {
        None
    }
}

/// The configuration file to read before the merge. There is none where
/// the user points at a configuration of their own, which Foot then reads
/// itself, or does not ask for the default one. Otherwise it is the first
/// of the candidates that exists on this machine, if any does.
pub fn conf_source(config: &Config, host: &Host) -> (r: Option<String>)
    ensures
        config.term_config_path is Some || !config.load_term_conf ==> r is None,
        config.term_config_path is None && config.load_term_conf ==> first_found_among(
            default_candidate_texts(),
            var_texts(host.vars@),
            opt_text(r),
        ),
{
    if config.term_config_path.is_some() || !config.load_term_conf {
        return pick_conf_source(config, Vec::new());
    }
    let found = find_default_confs(host);
    proof {
        lemma_found_without_base(default_candidate_texts(), var_texts(host.vars@), texts(found@));
    }
    pick_conf_source(config, found)
}

/// Writes the font setting.
pub fn font_setting(config: &Config) -> (r: String)
    ensures
        r@ == foot_fonts(config.font_names(), config.font_size),
{
    let ghost names = config.font_names();
    let mut font_str = String::new();
    let mut i: usize = 0;
    proof {
        assert(names.subrange(0, 0) =~= Seq::<Seq<char>>::empty());
    }
    while i < config.fonts.len()
        invariant
            i <= config.fonts.len(),
            names == config.font_names(),
            font_str@ == foot_fonts(names.subrange(0, i as int), config.font_size),
        decreases config.fonts.len() - i,
    {
        if !font_str.as_str().is_empty() {
            font_str.append(",");
        }
        font_str.append(config.fonts[i].as_str());
        if config.font_size != 0 {
            font_str.append(":size=");
            font_str.append(u8_to_decimal(config.font_size).as_str());
        }
        proof {
            let next = names.subrange(0, i + 1);
            assert(next.drop_last() =~= names.subrange(0, i as int));
            assert(next.last() == config.fonts[i as int]@);
            assert(font_str@ =~= foot_fonts(next, config.font_size));
        }
        i += 1;
    }
    proof {
        assert(names.subrange(0, i as int) =~= names);
    }
    font_str
}

/// Parses the text of a discovered configuration, or starts from an empty
/// one where there is none or it does not parse.
pub fn load_foot_conf(content: Option<&str>) -> (r: ini::Ini)
    ensures
        ini_values(r) == foot_loaded(opt_str_text(content)),
{
    match content {
        Some(text) => match ini_load(text) {
            Ok(conf) => conf,
            Err(_) => ini_new(),
        },
        None => ini_new(),
    }
}

/// The configuration that the merge starts from, given the text of the
/// file that `conf_source` named.
pub fn create_base_conf(config: &Config, content: Option<&str>) -> (r: ini::Ini)
    ensures
        ini_values(r) == foot_base_conf(config, opt_str_text(content)),
{
    if config.load_term_conf {
        load_foot_conf(content)
    } else {
        ini_new()
    }
}

/// Merges the font setting and the binding that disables the suspend key
/// into the configuration and returns the text of the configuration file to
/// generate.
pub fn create_conf_file(conf: &mut ini::Ini, config: &Config) -> (r: String)
    ensures
        ini_values(*final(conf)) == foot_merged(
            ini_values(*old(conf)),
            config.font_names(),
            config.font_size,
        ),
        r@ == ini_text(*final(conf)),
{
    let font_str = font_setting(config);
    if !font_str.as_str().is_empty() {
        ini_set(conf, "main", "font", font_str.as_str());
    }
    ini_set(conf, "key-bindings", "noop", "Control+z");
    ini_to_string(conf)
}

impl Functions for Foot {
    open spec fn exe_text(&self) -> Seq<char> {
        self.exe_path@
    }

    open spec fn command_args(
        &self,
        config: &Config,
        discovered: Seq<Seq<char>>,
        generated: Option<Seq<char>>,
        host: &Host,
    ) -> Seq<Seq<char>> {
        foot_args(opt_text(config.term_config_path), generated, config.nvim_exe_path@)
    }

    /// Assembles the invocation. `generated` is the path of the file that
    /// holds the text of `create_conf_file`; `discovered` is not used, since
    /// the user's configuration is merged into that file.
    fn create_command(
        &self,
        config: &Config,
        discovered: &Vec<String>,
        generated: &Option<String>,
        host: &Host,
    ) -> (r: ProcessDescriptor) {
        let mut args: Vec<String> = Vec::new();
        let none: Vec<String> = Vec::new();
        assert(texts(none@) =~= Seq::<Seq<char>>::empty());
        push_config_flags(&mut args, "--config", &config.term_config_path, false, &none, generated);
        push_str(&mut args, "--app-id");
        push_str(&mut args, APP_ID);
        push_editor_args(&mut args, config.nvim_exe_path.as_str());
        proof {
            assert(texts(args@) =~= foot_args(
                opt_text(config.term_config_path),
                opt_text(*generated),
                config.nvim_exe_path@,
            ));
        }
        ProcessDescriptor { exe: self.exe_path.clone(), args }
    }
}

} // verus!
