//! The application configuration that drives a launch.

use crate::error::ErrorKind;
use crate::error::GlrnvimError;
use crate::text::opt_text;
use crate::text::texts;
use vstd::prelude::*;

verus! {

/// The editor started when the configuration names none.
pub const NVIM_NAME: &'static str = "nvim";

/// The font size used when neither the configuration nor the terminal's own
/// configuration supplies one.
pub const DEFAULT_FONT_SIZE: u8 = 12;

/// A supported terminal emulator.
#[derive(Clone, Copy, Debug, PartialEq, Eq, Structural)]
pub enum Backend {
    Alacritty,
    Urxvt,
    Kitty,
    Wezterm,
    Foot,
}

/// The resolved application configuration. A `font_size` of 0 means that no
/// size was chosen.
#[derive(Debug, PartialEq)]
pub struct Config {
    pub fork: bool,
    pub backend: Option<Backend>,
    /// Deprecated spelling of `term_exe_path`.
    pub exe_path: Option<String>,
    pub term_exe_path: Option<String>,
    pub term_config_path: Option<String>,
    pub nvim_exe_path: String,
    pub load_term_conf: bool,
    pub fonts: Vec<String>,
    pub font_size: u8,
}

impl Config {
    /// The font names, in order.
    pub open spec fn font_names(&self) -> Seq<Seq<char>> {
        texts(self.fonts@)
    }

    /// Whether two configurations hold the same settings.
    pub open spec fn same_as(&self, other: &Config) -> bool {
        &&& self.fork == other.fork
        &&& self.backend == other.backend
        &&& opt_text(self.exe_path) == opt_text(other.exe_path)
        &&& opt_text(self.term_exe_path) == opt_text(other.term_exe_path)
        &&& opt_text(self.term_config_path) == opt_text(other.term_config_path)
        &&& self.nvim_exe_path@ == other.nvim_exe_path@
        &&& self.load_term_conf == other.load_term_conf
        &&& self.font_names() == other.font_names()
        &&& self.font_size == other.font_size
    }
}

impl Default for Config {
    fn default() -> (c: Self)
        ensures
            !c.fork,
            c.backend is None,
            c.exe_path is None,
            c.term_exe_path is None,
            c.term_config_path is None,
            c.nvim_exe_path@ == NVIM_NAME@,
            !c.load_term_conf,
            c.fonts@.len() == 0,
            c.font_size == 0,
    {
        Self {
            fork: false,
            backend: None,
            nvim_exe_path: String::from_str(NVIM_NAME),
            exe_path: None,
            term_exe_path: None,
            term_config_path: None,
            fonts: Vec::new(),
            font_size: 0,
            load_term_conf: false,
        }
    }
}

/// Whether a font entry names a font: it is neither empty nor the
/// placeholder `~`.
pub open spec fn is_font_name(s: Seq<char>) -> bool {
    s.len() != 0 && s != seq!['~']
}

/// The entries of `fonts` that name a font, in order.
pub open spec fn font_names_of(fonts: Seq<Seq<char>>) -> Seq<Seq<char>> {
    fonts.filter(|s: Seq<char>| is_font_name(s))
}

/// Whether a raw configuration is refused: it names a terminal executable
/// or a terminal configuration without saying which terminal it is.
pub open spec fn lacks_backend(raw: &Config) -> bool {
    raw.backend is None && (raw.term_exe_path is Some || raw.exe_path is Some
        || raw.term_config_path is Some)
}

/// The description of a refused configuration: it names the first setting,
/// of `term_exe_path`, `exe_path` and `term_config_path`, that is there
/// without a backend.
pub open spec fn lacks_backend_message(raw: &Config) -> Seq<char> {
    if raw.term_exe_path is Some {
        "term_exe_path requires a backend key"@
    } else if raw.exe_path is Some {
        "exe_path requires a backend key"@
    } else {
        "term_config_path requires a backend key"@
    }
}

impl Config {
    /// Whether a terminal's path is set only together with the terminal:
    /// what `parse` guarantees of every configuration it returns.
    pub open spec fn names_backend(&self) -> bool {
        self.backend is None ==> self.term_exe_path is None && self.exe_path is None
            && self.term_config_path is None
    }
}

/// Keeps the entries of `fonts` that name a font.
pub fn filter_fonts(fonts: Vec<String>) -> (r: Vec<String>)
    ensures
        texts(r@) == font_names_of(texts(fonts@)),
{
    proof {
        reveal_strlit("~");
    }
    let tilde = String::from_str("~");
    let ghost pred = |s: Seq<char>| is_font_name(s);
    let ghost all = texts(fonts@);
    let mut r: Vec<String> = Vec::new();
    let mut i: usize = 0;
    proof {
        reveal(Seq::filter);
        assert(all.subrange(0, 0).filter(pred) =~= Seq::<Seq<char>>::empty());
        assert(texts(r@) =~= Seq::<Seq<char>>::empty());
    }
    while i < fonts.len()
        invariant
            i <= fonts.len(),
            all == texts(fonts@),
            tilde@ == seq!['~'],
            pred == (|s: Seq<char>| is_font_name(s)),
            texts(r@) == all.subrange(0, i as int).filter(pred),
        decreases fonts.len() - i,
    {
        let ghost before = texts(r@);
        let f = &fonts[i];
        let keep = !f.as_str().is_empty() && !(*f == tilde);
        if keep {
            r.push(f.clone());
        }
        proof {
            reveal(Seq::filter);
            let next = all.subrange(0, i + 1);
            assert(next.drop_last() =~= all.subrange(0, i as int));
            assert(next.last() == f@);
            assert(keep == pred(f@));
            if keep {
                assert(texts(r@) =~= before.push(f@));
            } else {
                assert(texts(r@) =~= before);
            }
        }
        i += 1;
    }
    proof {
        assert(all.subrange(0, i as int) =~= all);
    }
    r
}

/// Tests whether a configuration as read from the user's file can be
/// taken: one that names a terminal executable or configuration without a
/// backend is refused, with a description that names the offending setting.
pub fn check_backend(raw: &Config) -> (r: Result<(), GlrnvimError>)
    ensures
        r is Err <==> lacks_backend(raw),
        r matches Err(e) ==> e.spec_kind() == ErrorKind::Other && e.spec_message()
            == lacks_backend_message(raw),
{
    if raw.backend.is_none() {
        if raw.term_exe_path.is_some() {
            return Err(
                GlrnvimError::new(String::from_str("term_exe_path requires a backend key")),
            );
        }
        if raw.exe_path.is_some() {
            return Err(GlrnvimError::new(String::from_str("exe_path requires a backend key")));
        }
        if raw.term_config_path.is_some() {
            return Err(
                GlrnvimError::new(String::from_str("term_config_path requires a backend key")),
            );
        }
    }
    Ok(())
}

/// Normalises a configuration as read from the user's file: falls back to
/// the default editor, lets the deprecated `exe_path` override
/// `term_exe_path`, and drops font entries that name no font. A
/// configuration that names a terminal executable or configuration without
/// a backend is not taken: `check_backend` tests for it.
pub fn parse(raw: Config) -> (c: Config)
    requires
        !lacks_backend(&raw),
    ensures
        c.names_backend(),
        ({
            &&& c.fork == raw.fork
            &&& c.backend == raw.backend
            &&& opt_text(c.exe_path) == opt_text(raw.exe_path)
            &&& opt_text(c.term_exe_path) == if raw.exe_path is Some {
                opt_text(raw.exe_path)
            } else {
                opt_text(raw.term_exe_path)
            }
            &&& opt_text(c.term_config_path) == opt_text(raw.term_config_path)
            &&& c.nvim_exe_path@ == if raw.nvim_exe_path@.len() == 0 {
                NVIM_NAME@
            } else {
                raw.nvim_exe_path@
            }
            &&& c.load_term_conf == raw.load_term_conf
            &&& c.font_names() == font_names_of(raw.font_names())
            &&& c.font_size == raw.font_size
        }),
{
    let mut config = raw;
    if config.nvim_exe_path.as_str().is_empty() {
        config.nvim_exe_path = String::from_str(NVIM_NAME);
    }
    if config.exe_path.is_some() {
        config.term_exe_path = config.exe_path.clone();
    }
    let Config {
        fork,
        backend,
        exe_path,
        term_exe_path,
        term_config_path,
        nvim_exe_path,
        load_term_conf,
        fonts,
        font_size,
    } = config;
    let fonts = filter_fonts(fonts);
    Config {
        fork,
        backend,
        exe_path,
        term_exe_path,
        term_config_path,
        nvim_exe_path,
        load_term_conf,
        fonts,
        font_size,
    }
}

/// Records whether the launcher detaches from the terminal it starts.
pub fn complete(config: Config, fork: bool) -> (c: Config)
    ensures
        c.fork == fork,
        c.same_as(&Config { fork, ..config }),
{
    let mut config = config;
    config.fork = fork;
    config
}

/// Chooses the default font size where the terminal's own configuration
/// is not loaded and no size was set.
pub fn apply_default_font_size(config: Config) -> (c: Config)
    ensures
        c.font_size == if !config.load_term_conf && config.font_size == 0 {
            DEFAULT_FONT_SIZE
        } else {
            config.font_size
        },
        c.same_as(&Config { font_size: c.font_size, ..config }),
{
    let mut config = config;
    if !config.load_term_conf && config.font_size == 0 {
        config.font_size = DEFAULT_FONT_SIZE;
    }
    config
}

} // verus!
