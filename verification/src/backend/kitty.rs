//! Kitty: a generated configuration file passed after the user's own.

use crate::backend::command::config_flag_texts;
use crate::backend::command::editor_arg_texts;
use crate::backend::command::push_config_flags;
use crate::backend::command::push_editor_args;
use crate::backend::command::ProcessDescriptor;
use crate::backend::command::APP_ID;
use crate::backend::locate::all_existing;
use crate::backend::locate::find_term_conf_files;
use crate::backend::locate::found_among;
use crate::backend::locate::located;
use crate::backend::locate::probes_of;
use crate::backend::resolve::exe_path;
use crate::backend::resolve::not_found_message;
use crate::backend::resolve::resolution;
use crate::backend::Functions;
use crate::config::Config;
use crate::error::ErrorKind;
use crate::error::GlrnvimError;
use crate::host::is_plain_path;
use crate::host::var_texts;
use crate::host::Host;
use crate::host::Platform;
use crate::text::decimal;
use crate::text::opt_text;
use crate::text::push_str;
use crate::text::texts;
use crate::text::u8_to_decimal;
use vstd::prelude::*;

verus! {

/// The name of Kitty's executable.
pub const KITTY_NAME: &'static str = "kitty";

/// A resolved Kitty.
#[derive(Debug)]
pub struct Kitty {
    pub exe_path: String,
}

/// The text of the generated configuration: the first font as the family if
/// a font is configured, the size if one was chosen, no shortcuts at all
/// where the user's configuration is not loaded, and a harmless action on
/// the suspend key.
pub open spec fn kitty_conf_text(fonts: Seq<Seq<char>>, font_size: u8, load_existing: bool) -> Seq<
    char,
> {
    (if fonts.len() > 0 {
        "font_family "@ + fonts[0] + "\n"@
    } else {
        Seq::empty()
    }) + (if font_size != 0 {
        "font_size "@ + decimal(font_size as nat) + "\n"@
    } else {
        Seq::empty()
    }) + (if !load_existing {
        "clear_all_shortcuts yes\n"@
    } else {
        Seq::empty()
    }) + "map ctrl+z change_font_size all 0\n"@
}

/// Kitty's arguments: the configuration flags, the window class on Linux,
/// then the editor.
pub open spec fn kitty_args(
    explicit: Option<Seq<char>>,
    load_existing: bool,
    discovered: Seq<Seq<char>>,
    generated: Option<Seq<char>>,
    platform: Platform,
    editor: Seq<char>,
) -> Seq<Seq<char>> {
    config_flag_texts("--config"@, explicit, load_existing, discovered, generated) + (if platform
        == Platform::Linux {
        seq!["--class"@, APP_ID@]
    } else {
        Seq::empty()
    }) + editor_arg_texts(editor)
}

/// Resolves Kitty's executable: the configured path as it is, else what the
/// search for its name finds.
pub fn init(config: &Config, platform: Platform) -> (r: Result<Kitty, GlrnvimError>)
    ensures
        resolution(
            opt_text(config.term_exe_path),
            KITTY_NAME@,
            platform,
            match r {
                Ok(t) => Ok(t.exe_path@),
                Err(e) => Err(e.spec_message()),
            },
        ),
        config.term_exe_path matches Some(p) ==> r matches Ok(a) && a.exe_path@ == p@,
        r matches Err(e) ==> e.spec_kind() == ErrorKind::ExecutableNotFound && exists|
            detail: Option<Seq<char>>,
        | e.spec_message() == #[trigger] not_found_message(KITTY_NAME@, detail),
{
    match exe_path(&config.term_exe_path, KITTY_NAME, platform) {
        Ok(exe_path) => Ok(Kitty { exe_path }),
        Err(e) => Err(e),
    }
}

/// The configuration that always applies, with the lowest priority.
pub open spec fn base_candidate_texts() -> Seq<Seq<char>> {
    seq!["/etc/xdg/kitty/kitty.conf"@]
}

/// The candidates for the user's configuration, by priority.
pub open spec fn priority_candidate_texts() -> Seq<Seq<char>> {
    seq![
        "$KITTY_CONFIG_DIRECTORY/kitty.conf"@,
        "$XDG_CONFIG_HOME/kitty.conf"@,
        "$HOME/.config/kitty/kitty.conf"@,
        "$XDG_CONFIG_DIRS/kitty/kitty.conf"@,
    ]
}

/// The configuration that always applies, with the lowest priority.
pub fn base_conf_candidates() -> (r: Vec<String>)
    ensures
        texts(r@) == base_candidate_texts(),
{
    let mut r: Vec<String> = Vec::new();
    push_str(&mut r, "/etc/xdg/kitty/kitty.conf");
    assert(texts(r@) =~= base_candidate_texts());
    r
}

/// The candidates for the user's configuration, by priority.
pub fn priority_conf_candidates() -> (r: Vec<String>)
    ensures
        texts(r@) == priority_candidate_texts(),
{
    let mut r: Vec<String> = Vec::new();
    push_str(&mut r, "$KITTY_CONFIG_DIRECTORY/kitty.conf");
    push_str(&mut r, "$XDG_CONFIG_HOME/kitty.conf");
    push_str(&mut r, "$HOME/.config/kitty/kitty.conf");
    push_str(&mut r, "$XDG_CONFIG_DIRS/kitty/kitty.conf");
    assert(texts(r@) =~= priority_candidate_texts());
    r
}

/// Kitty's own configuration files, as they exist on this machine: the
/// system-wide file, which always applies, with the lowest priority; then,
/// of the user's candidates, the first that exists.
pub fn find_default_confs(host: &Host) -> (r: Vec<String>)
    ensures
        found_among(
            base_candidate_texts(),
            priority_candidate_texts(),
            var_texts(host.vars@),
            texts(r@),
        ),
        r@.len() <= 2,
{
    let base = base_conf_candidates();
    let priority = priority_conf_candidates();
    assert(texts(base@).len() == base@.len());
    find_term_conf_files(&base, &priority, host)
}

/// At most two of Kitty's configuration files are found, and where there
/// are two, the first is the system-wide one.
pub proof fn lemma_system_conf_comes_first(
    vars: Seq<(Seq<char>, Seq<char>)>,
    found: Seq<Seq<char>>,
)
    requires
        found_among(base_candidate_texts(), priority_candidate_texts(), vars, found),
    ensures
        found.len() <= 2,
        found.len() == 2 ==> found[0] == "/etc/xdg/kitty/kitty.conf"@,
{
    let (home, b, p) = choose|
        home: Option<Seq<char>>,
        b: Seq<(Seq<char>, bool)>,
        p: Seq<(Seq<char>, bool)>,
    |
        #[trigger] probes_of(base_candidate_texts(), home, vars, b) && #[trigger] probes_of(
            priority_candidate_texts(),
            home,
            vars,
            p,
        ) && found == located(b, p);
    reveal_strlit("/etc/xdg/kitty/kitty.conf");
    assert(is_plain_path(base_candidate_texts()[0])) by {
        let path = "/etc/xdg/kitty/kitty.conf"@;
        assert(path.len() == 25);
        assert forall|i: int| 0 <= i < path.len() implies path[i] != '$' by {}
    }
    assert(b[0].0 == base_candidate_texts()[0]);
    assert(b.drop_last() =~= Seq::empty());
    reveal_with_fuel(all_existing, 2);
    assert(all_existing(b.drop_last()) =~= Seq::empty());
}

/// Every generated configuration ends with the line that takes the suspend
/// key away from the terminal.
pub proof fn lemma_conf_disables_suspend(fonts: Seq<Seq<char>>, font_size: u8, load_existing: bool)
    ensures
        exists|head: Seq<char>| #[trigger]
            (head + "map ctrl+z change_font_size all 0\n"@) == kitty_conf_text(
                fonts,
                font_size,
                load_existing,
            ),
{
    let line = "map ctrl+z change_font_size all 0\n"@;
    let text = kitty_conf_text(fonts, font_size, load_existing);
    reveal_strlit("map ctrl+z change_font_size all 0\n");
    let head = text.subrange(0, text.len() - line.len());
    assert(head + line =~= text);
}

impl Kitty {
    /// The text of the configuration file to generate.
    pub fn create_conf_file(&self, config: &Config) -> (r: String)
        ensures
            r@ == kitty_conf_text(config.font_names(), config.font_size, config.load_term_conf),
    {
        let mut text = String::new();
        if config.fonts.len() > 0 {
            text.append("font_family ");
            text.append(config.fonts[0].as_str());
            text.append("\n");
        }
        if config.font_size != 0 {
            text.append("font_size ");
            text.append(u8_to_decimal(config.font_size).as_str());
            text.append("\n");
        }
        if !config.load_term_conf {
            text.append("clear_all_shortcuts yes\n");
        }
        text.append("map ctrl+z change_font_size all 0\n");
        assert(text@ =~= kitty_conf_text(
            config.font_names(),
            config.font_size,
            config.load_term_conf,
        ));
        text
    }

}

impl Functions for Kitty {
    open spec fn exe_text(&self) -> Seq<char> {
        self.exe_path@
    }

    open spec fn command_args(
        &self,
        config: &Config,
        discovered: Seq<Seq<char>>,
        generated: Option<Seq<char>>,
        host: &Host,
    ) -> Seq<Seq<char>> {
        kitty_args(
            opt_text(config.term_config_path),
            config.load_term_conf,
            discovered,
            generated,
            host.platform,
            config.nvim_exe_path@,
        )
    }

    /// Assembles the invocation. `discovered` are Kitty's own configuration
    /// files as `find_default_confs` found them, `generated` is the path of
    /// the file that holds the text of `create_conf_file`.
    fn create_command(
        &self,
        config: &Config,
        discovered: &Vec<String>,
        generated: &Option<String>,
        host: &Host,
    ) -> (r: ProcessDescriptor) {
        let mut args: Vec<String> = Vec::new();
        push_config_flags(
            &mut args,
            "--config",
            &config.term_config_path,
            config.load_term_conf,
            discovered,
            generated,
        );
        if host.platform == Platform::Linux {
            push_str(&mut args, "--class");
            push_str(&mut args, APP_ID);
        }
        push_editor_args(&mut args, config.nvim_exe_path.as_str());
        proof {
            assert(texts(args@) =~= kitty_args(
                opt_text(config.term_config_path),
                config.load_term_conf,
                texts(discovered@),
                opt_text(*generated),
                host.platform,
                config.nvim_exe_path@,
            ));
        }
        ProcessDescriptor { exe: self.exe_path.clone(), args }
    }
}

} // verus!
