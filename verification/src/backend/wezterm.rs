//! Wezterm: configured by overrides on the command line, over the user's
//! configuration or over a generated one that holds nothing but the binding
//! that disables the suspend key.

use crate::backend::command::config_flag_texts;
use crate::backend::command::editor_arg_texts;
use crate::backend::command::push_config_flags;
use crate::backend::command::push_editor_args;
use crate::backend::command::ProcessDescriptor;
use crate::backend::command::APP_ID;
use crate::backend::resolve::exe_path;
use crate::backend::resolve::not_found_message;
use crate::backend::resolve::resolution;
use crate::backend::Functions;
use crate::config::Config;
use crate::error::ErrorKind;
use crate::error::GlrnvimError;
use crate::host::Host;
use crate::host::Platform;
use crate::text::decimal;
use crate::text::opt_text;
use crate::text::push_str;
use crate::text::push_string;
use crate::text::push_strings;
use crate::text::texts;
use crate::text::u8_to_decimal;
use vstd::prelude::*;

verus! {

/// The name of Wezterm's executable.
pub const WEZTERM_NAME: &'static str = "wezterm";

/// A resolved Wezterm.
#[derive(Debug)]
pub struct Wezterm {
    pub exe_path: String,
}

/// The opening of the font override with the fonts listed so far, each in
/// double quotes and followed by a comma.
pub open spec fn font_list(fonts: Seq<Seq<char>>) -> Seq<char>
    decreases fonts.len(),
{
    if fonts.len() == 0 {
        "font = require('wezterm').font_with_fallback({"@
    } else {
        font_list(fonts.drop_last()) + " \""@ + fonts.last() + "\","@
    }
}

/// The key table that takes the suspend key combination away from the
/// application. It stands in the generated configuration file only: given
/// on the command line it would replace the key table of the user's own
/// configuration.
pub open spec fn suspend_keys() -> Seq<char> {
    "keys = { { key = 'z', mods = 'CTRL', action = require('wezterm').action.Nop } }"@
}

/// The configuration overrides: the fonts with their fallbacks if any is
/// configured, the font size if one was chosen, and no tab bar.
pub open spec fn wezterm_overrides(fonts: Seq<Seq<char>>, font_size: u8) -> Seq<Seq<char>> {
    (if fonts.len() > 0 {
        seq!["--config"@, font_list(fonts) + "})"@]
    } else {
        Seq::empty()
    }) + (if font_size != 0 {
        seq!["--config"@, "font_size="@ + decimal(font_size as nat)]
    } else {
        Seq::empty()
    }) + seq!["--config"@, "enable_tab_bar = false"@]
}

/// Only what is configured is overridden: without fonts and without a
/// chosen size the overrides take away the tab bar and do nothing else.
pub proof fn lemma_overrides_of_unset_values(fonts: Seq<Seq<char>>, font_size: u8)
    requires
        fonts.len() == 0,
        font_size == 0,
    ensures
        wezterm_overrides(fonts, font_size) == seq!["--config"@, "enable_tab_bar = false"@],
{
    assert(wezterm_overrides(fonts, font_size) =~= seq!["--config"@, "enable_tab_bar = false"@]);
}

/// The generated configuration file holds the key table that disables the
/// suspend key.
pub proof fn lemma_conf_disables_suspend()
    ensures
        exists|head: Seq<char>, tail: Seq<char>| #[trigger]
            (head + suspend_keys() + tail) == wezterm_conf_text(),
{
    assert("return { "@ + suspend_keys() + " }\n"@ == wezterm_conf_text());
}

/// Wezterm's arguments: the configuration file, the overrides, the start
/// command with the window class and the working directory, the separator,
/// then the editor.
pub open spec fn wezterm_args(
    explicit: Option<Seq<char>>,
    load_existing: bool,
    generated: Option<Seq<char>>,
    fonts: Seq<Seq<char>>,
    font_size: u8,
    editor: Seq<char>,
) -> Seq<Seq<char>> {
    config_flag_texts("--config-file"@, explicit, load_existing, Seq::empty(), generated)
        + wezterm_overrides(fonts, font_size) + seq![
        "start"@,
        "--class"@,
        APP_ID@,
        "--cwd"@,
        "."@,
        "--"@,
    ] + editor_arg_texts(editor)
}

/// The text of the generated configuration file: a configuration that
/// holds the key table that disables the suspend key, and nothing else.
pub open spec fn wezterm_conf_text() -> Seq<char> {
    "return { "@ + suspend_keys() + " }\n"@
}

/// Whether a configuration file is generated: only where the user neither
/// points at a configuration nor asks for the default one to be loaded.
pub open spec fn wezterm_needs_conf(config: &Config) -> bool {
    config.term_config_path is None && !config.load_term_conf
}

/// Resolves Wezterm's executable: the configured path as it is, else what the
/// search for its name finds.
pub fn init(config: &Config, platform: Platform) -> (r: Result<Wezterm, GlrnvimError>)
    ensures
        resolution(
            opt_text(config.term_exe_path),
            WEZTERM_NAME@,
            platform,
            match r {
                Ok(t) => Ok(t.exe_path@),
                Err(e) => Err(e.spec_message()),
            },
        ),
        config.term_exe_path matches Some(p) ==> r matches Ok(a) && a.exe_path@ == p@,
        r matches Err(e) ==> e.spec_kind() == ErrorKind::ExecutableNotFound && exists|
            detail: Option<Seq<char>>,
        | e.spec_message() == #[trigger] not_found_message(WEZTERM_NAME@, detail),
{
    match exe_path(&config.term_exe_path, WEZTERM_NAME, platform) {
        Ok(exe_path) => Ok(Wezterm { exe_path }),
        Err(e) => Err(e),
    }
}

impl Wezterm {
    /// The configuration overrides.
    pub fn init_args(&self, config: &Config) -> (r: Vec<String>)
        ensures
            texts(r@) == wezterm_overrides(config.font_names(), config.font_size),
    {
        let ghost names = config.font_names();
        let mut args: Vec<String> = Vec::new();
        assert(texts(args@) =~= Seq::<Seq<char>>::empty());
        if config.fonts.len() > 0 {
            push_str(&mut args, "--config");
            let mut fn_arg = String::from_str("font = require('wezterm').font_with_fallback({");
            let mut i: usize = 0;
            proof {
                assert(names.subrange(0, 0) =~= Seq::<Seq<char>>::empty());
            }
            while i < config.fonts.len()
                invariant
                    i <= config.fonts.len(),
                    names == config.font_names(),
                    fn_arg@ == font_list(names.subrange(0, i as int)),
                decreases config.fonts.len() - i,
            {
                let font = config.fonts[i].as_str();
                fn_arg.append(" \"");
                fn_arg.append(font);
                fn_arg.append("\",");
                proof {
                    let next = names.subrange(0, i + 1);
                    assert(next.drop_last() =~= names.subrange(0, i as int));
                    assert(next.last() == font@);
                    assert(fn_arg@ =~= font_list(next));
                }
                i += 1;
            }
            proof {
                assert(names.subrange(0, i as int) =~= names);
            }
            fn_arg.append("})");
            push_string(&mut args, fn_arg);
            assert(texts(args@) =~= seq!["--config"@, font_list(names) + "})"@]);
        }
        let ghost with_fonts = texts(args@);
        if config.font_size != 0 {
            push_str(&mut args, "--config");
            let mut size_arg = String::from_str("font_size=");
            size_arg.append(u8_to_decimal(config.font_size).as_str());
            push_string(&mut args, size_arg);
            assert(texts(args@) =~= with_fonts + seq![
                "--config"@,
                "font_size="@ + decimal(config.font_size as nat),
            ]);
        } else {
            assert(texts(args@) =~= with_fonts + Seq::<Seq<char>>::empty());
        }
        let ghost with_size = texts(args@);
        push_str(&mut args, "--config");
        push_str(&mut args, "enable_tab_bar = false");
        assert(texts(args@) =~= with_size + seq!["--config"@, "enable_tab_bar = false"@]);
        args
    }

    /// The text of the configuration file to generate, where one is needed.
    pub fn create_conf_file(&self, config: &Config) -> (r: Option<String>)
        ensures
            opt_text(r) == if wezterm_needs_conf(config) {
                Some(wezterm_conf_text())
            } else {
                None
            },
    {
        if config.term_config_path.is_none() && !config.load_term_conf {
            let mut text = String::from_str("return { ");
            text.append(
                "keys = { { key = 'z', mods = 'CTRL', action = require('wezterm').action.Nop } }",
            );
            text.append(" }\n");
            Some(text)
        } else {
            None
        }
    }

}

impl Functions for Wezterm {
    open spec fn exe_text(&self) -> Seq<char> {
        self.exe_path@
    }

    open spec fn command_args(
        &self,
        config: &Config,
        discovered: Seq<Seq<char>>,
        generated: Option<Seq<char>>,
        host: &Host,
    ) -> Seq<Seq<char>> {
        wezterm_args(
            opt_text(config.term_config_path),
            config.load_term_conf,
            generated,
            config.font_names(),
            config.font_size,
            config.nvim_exe_path@,
        )
    }

    /// Assembles the invocation. `generated` is the path of the file that
    /// holds the text of `create_conf_file`, if there is one; `discovered`
    /// is not used, since Wezterm loads its own configuration itself.
    fn create_command(
        &self,
        config: &Config,
        discovered: &Vec<String>,
        generated: &Option<String>,
        host: &Host,
    ) -> (r: ProcessDescriptor) {
        let mut args: Vec<String> = Vec::new();
        let none: Vec<String> = Vec::new();
        assert(texts(none@) =~= Seq::<Seq<char>>::empty());
        push_config_flags(
            &mut args,
            "--config-file",
            &config.term_config_path,
            config.load_term_conf,
            &none,
            generated,
        );
        let overrides = self.init_args(config);
        push_strings(&mut args, &overrides);
        push_str(&mut args, "start");
        push_str(&mut args, "--class");
        push_str(&mut args, APP_ID);
        push_str(&mut args, "--cwd");
        push_str(&mut args, ".");
        push_str(&mut args, "--");
        push_editor_args(&mut args, config.nvim_exe_path.as_str());
        proof {
            assert(texts(args@) =~= wezterm_args(
                opt_text(config.term_config_path),
                config.load_term_conf,
                opt_text(*generated),
                config.font_names(),
                config.font_size,
                config.nvim_exe_path@,
            ));
        }
        ProcessDescriptor { exe: self.exe_path.clone(), args }
    }
}

} // verus!
