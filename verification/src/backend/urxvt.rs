//! Urxvt: configured by command-line arguments alone.

use crate::backend::command::editor_arg_texts;
use crate::backend::command::push_editor_args;
use crate::backend::command::ProcessDescriptor;
use crate::backend::command::APP_ID;
use crate::backend::resolve::exe_path;
use crate::backend::resolve::not_found_message;
use crate::backend::resolve::resolution;
use crate::backend::Functions;
use crate::config::Config;
use crate::error::ErrorKind;
use crate::error::GlrnvimError;
use crate::host::Host;
use crate::host::Platform;
use crate::text::decimal;
use crate::text::opt_text;
use crate::text::push_str;
use crate::text::push_string;
use crate::text::push_strings;
use crate::text::texts;
use crate::text::u8_to_decimal;
use vstd::prelude::*;

verus! {

/// The name of Urxvt's executable.
pub const URXVT_NAME: &'static str = "urxvt";

/// A resolved Urxvt.
#[derive(Debug)]
pub struct Urxvt {
    pub exe_path: String,
}

/// The font list in Xft notation: the first font carries the size, every
/// font is anti-aliased, and the fonts are separated by commas.
pub open spec fn xft_fonts(fonts: Seq<Seq<char>>, font_size: u8) -> Seq<char>
    decreases fonts.len(),
{
    if fonts.len() == 0 {
        Seq::empty()
    } else if fonts.len() == 1 {
        "xft:"@ + fonts[0] + ":size="@ + decimal(font_size as nat) + ":antialias=true"@
    } else {
        xft_fonts(fonts.drop_last(), font_size) + ",xft:"@ + fonts.last() + ":antialias=true"@
    }
}

/// The arguments that choose the fonts; none where no font is configured.
pub open spec fn urxvt_font_args(fonts: Seq<Seq<char>>, font_size: u8) -> Seq<Seq<char>> {
    if fonts.len() == 0 {
        Seq::empty()
    } else {
        seq!["-fn"@, xft_fonts(fonts, font_size)]
    }
}

/// Urxvt's arguments: the instance name, the binding that disables the
/// suspend key, the fonts, then the editor.
pub open spec fn urxvt_args(fonts: Seq<Seq<char>>, font_size: u8, editor: Seq<char>) -> Seq<
    Seq<char>,
> {
    seq!["-name"@, APP_ID@, "-keysym.C-z:"@, "builtin-string:"@] + urxvt_font_args(
        fonts,
        font_size,
    ) + seq!["-e"@] + editor_arg_texts(editor)
}

/// Resolves Urxvt's executable: the configured path as it is, else what the
/// search for its name finds.
pub fn init(config: &Config, platform: Platform) -> (r: Result<Urxvt, GlrnvimError>)
    ensures
        resolution(
            opt_text(config.term_exe_path),
            URXVT_NAME@,
            platform,
            match r {
                Ok(t) => Ok(t.exe_path@),
                Err(e) => Err(e.spec_message()),
            },
        ),
        config.term_exe_path matches Some(p) ==> r matches Ok(a) && a.exe_path@ == p@,
        r matches Err(e) ==> e.spec_kind() == ErrorKind::ExecutableNotFound && exists|
            detail: Option<Seq<char>>,
        | e.spec_message() == #[trigger] not_found_message(URXVT_NAME@, detail),
{
    match exe_path(&config.term_exe_path, URXVT_NAME, platform) {
        Ok(exe_path) => Ok(Urxvt { exe_path }),
        Err(e) => Err(e),
    }
}

impl Urxvt {
    /// The arguments that choose the fonts.
    pub fn init_args(&self, config: &Config) -> (r: Vec<String>)
        ensures
            texts(r@) == urxvt_font_args(config.font_names(), config.font_size),
    {
        let ghost names = config.font_names();
        let mut args: Vec<String> = Vec::new();
        let mut fn_arg = String::new();
        let mut i: usize = 0;
        proof {
            assert(names.subrange(0, 0) =~= Seq::<Seq<char>>::empty());
            assert(texts(args@) =~= Seq::<Seq<char>>::empty());
        }
        while i < config.fonts.len()
            invariant
                i <= config.fonts.len(),
                names == config.font_names(),
                fn_arg@ == xft_fonts(names.subrange(0, i as int), config.font_size),
                i == 0 ==> texts(args@) == Seq::<Seq<char>>::empty(),
                i > 0 ==> texts(args@) == seq!["-fn"@],
            decreases config.fonts.len() - i,
        {
            let font = config.fonts[i].as_str();
            let ghost before = fn_arg@;
            if i == 0 {
                push_str(&mut args, "-fn");
                assert(texts(args@) =~= seq!["-fn"@]);
                fn_arg.append("xft:");
                fn_arg.append(font);
                fn_arg.append(":size=");
                fn_arg.append(u8_to_decimal(config.font_size).as_str());
                fn_arg.append(":antialias=true");
            } else {
                fn_arg.append(",xft:");
                fn_arg.append(font);
                fn_arg.append(":antialias=true");
            }
            proof {
                let next = names.subrange(0, i + 1);
                assert(next.drop_last() =~= names.subrange(0, i as int));
                assert(next.last() == font@);
                if i == 0 {
                    assert(next[0] == font@);
                    assert(before =~= Seq::<char>::empty());
                    assert(fn_arg@ =~= xft_fonts(next, config.font_size));
                } else {
                    assert(fn_arg@ =~= xft_fonts(next, config.font_size));
                }
            }
            i += 1;
        }
        proof {
            assert(names.subrange(0, i as int) =~= names);
        }
        if i > 0 {
            push_string(&mut args, fn_arg);
            assert(texts(args@) =~= urxvt_font_args(names, config.font_size));
        }
        args
    }

}

impl Functions for Urxvt {
    open spec fn exe_text(&self) -> Seq<char> {
        self.exe_path@
    }

    open spec fn command_args(
        &self,
        config: &Config,
        discovered: Seq<Seq<char>>,
        generated: Option<Seq<char>>,
        host: &Host,
    ) -> Seq<Seq<char>> {
        urxvt_args(config.font_names(), config.font_size, config.nvim_exe_path@)
    }

    /// Assembles the invocation. Urxvt takes no configuration file:
    /// `discovered` and `generated` are not used.
    fn create_command(
        &self,
        config: &Config,
        discovered: &Vec<String>,
        generated: &Option<String>,
        host: &Host,
    ) -> (r: ProcessDescriptor) {
        let mut args: Vec<String> = Vec::new();
        push_str(&mut args, "-name");
        push_str(&mut args, APP_ID);
        push_str(&mut args, "-keysym.C-z:");
        push_str(&mut args, "builtin-string:");
        let fonts = self.init_args(config);
        push_strings(&mut args, &fonts);
        push_str(&mut args, "-e");
        push_editor_args(&mut args, config.nvim_exe_path.as_str());
        proof {
            assert(texts(args@) =~= urxvt_args(
                config.font_names(),
                config.font_size,
                config.nvim_exe_path@,
            ));
        }
        ProcessDescriptor { exe: self.exe_path.clone(), args }
    }
}

} // verus!
