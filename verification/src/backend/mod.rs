//! The supported terminal emulators and what they share.

pub mod alacritty;
pub mod command;
pub mod foot;
pub mod hexquote;
pub mod kitty;
pub mod locate;
pub mod resize;
pub mod resolve;
pub mod urxvt;
pub mod wezterm;

use crate::backend::alacritty::Alacritty;
use crate::backend::command::ProcessDescriptor;
use crate::backend::resolve::lemma_search_names_executable;
use crate::backend::resolve::not_found_message;
use crate::backend::resolve::resolution;
use crate::backend::foot::Foot;
use crate::backend::kitty::Kitty;
use crate::backend::urxvt::Urxvt;
use crate::backend::wezterm::Wezterm;
use crate::config::Backend;
use crate::config::Config;
use crate::error::ErrorKind;
use crate::error::GlrnvimError;
use crate::host::var_texts;
use crate::host::Host;
use crate::host::Platform;
use crate::text::opt_str_text;
use crate::text::opt_text;
use crate::text::texts;
use vstd::prelude::*;

verus! {

/// What every terminal can do once its executable is resolved.
pub trait Functions {
    /// The terminal's executable.
    spec fn exe_text(&self) -> Seq<char>;

    /// The arguments of the invocation.
    spec fn command_args(
        &self,
        config: &Config,
        discovered: Seq<Seq<char>>,
        generated: Option<Seq<char>>,
        host: &Host,
    ) -> Seq<Seq<char>>;

    /// Assembles the invocation of the terminal with the editor inside.
    /// `discovered` are the terminal's own configuration files that are to
    /// be passed on, `generated` is the path of the generated configuration
    /// file, if one was written.
    fn create_command(
        &self,
        config: &Config,
        discovered: &Vec<String>,
        generated: &Option<String>,
        host: &Host,
    ) -> (r: ProcessDescriptor)
        ensures
            r.exe@ == self.exe_text(),
            r.arg_texts() == self.command_args(
                config,
                texts(discovered@),
                opt_text(*generated),
                host,
            ),
    ;
}

/// A terminal whose executable is resolved.
#[derive(Debug)]
pub enum Terminal {
    Alacritty(Alacritty),
    Urxvt(Urxvt),
    Kitty(Kitty),
    Wezterm(Wezterm),
    Foot(Foot),
}

impl Terminal {
    /// Which terminal this is.
    pub open spec fn backend(&self) -> Backend {
        match self {
            Terminal::Alacritty(_) => Backend::Alacritty,
            Terminal::Urxvt(_) => Backend::Urxvt,
            Terminal::Kitty(_) => Backend::Kitty,
            Terminal::Wezterm(_) => Backend::Wezterm,
            Terminal::Foot(_) => Backend::Foot,
        }
    }

    /// Which terminal this is.
    pub fn kind(&self) -> (b: Backend)
        ensures
            b == self.backend(),
    {
        match self {
            Terminal::Alacritty(_) => Backend::Alacritty,
            Terminal::Urxvt(_) => Backend::Urxvt,
            Terminal::Kitty(_) => Backend::Kitty,
            Terminal::Wezterm(_) => Backend::Wezterm,
            Terminal::Foot(_) => Backend::Foot,
        }
    }
}

/// The text of the configuration file that a launch generates; `None`
/// where the terminal uses none for this configuration, and `Err` where the
/// user's own configuration cannot be built on. `content` is the text of
/// the file that `conf_source` named.
pub open spec fn generated_conf(
    backend: Backend,
    config: &Config,
    content: Option<Seq<char>>,
    r: Result<Option<String>, GlrnvimError>,
) -> bool {
    match backend {
        Backend::Urxvt => r matches Ok(None),
        Backend::Kitty => r matches Ok(Some(s)) && s@ == kitty::kitty_conf_text(
            config.font_names(),
            config.font_size,
            config.load_term_conf,
        ),
        Backend::Wezterm => if wezterm::wezterm_needs_conf(config) {
            r matches Ok(Some(s)) && s@ == wezterm::wezterm_conf_text()
        } else {
            r matches Ok(None)
        },
        Backend::Foot => if config.term_config_path is Some {
            r matches Ok(None)
        } else {
            r matches Ok(Some(s)) && exists|d: ini::Ini|
                s@ == #[trigger] crate::inifile::ini_text(d) && crate::inifile::ini_values(d)
                    == foot::foot_merged(
                    foot::foot_base_conf(config, content),
                    config.font_names(),
                    config.font_size,
                )
        },
        Backend::Alacritty => match alacritty::base_conf(config, content) {
            Some(entries) => if alacritty::mergeable(entries) {
                r matches Ok(Some(s)) && exists|d: toml_edit::DocumentMut|
                    s@ == hexquote::quoted_text(#[trigger] crate::toml::doc_text(d))
                        && crate::toml::doc_entries(d)
                        == alacritty::merged(entries, config.font_names(), config.font_size)
            } else {
                r matches Err(e) && e.spec_kind() == ErrorKind::ConfigParse
            },
            None => r matches Err(e) && e.spec_kind() == ErrorKind::ConfigParse,
        },
    }
}

impl Terminal {
    /// The terminal's own configuration file that has to be read before
    /// the configuration is generated, if there is one. Alacritty and Foot
    /// merge the generated settings into it; the other terminals read their
    /// configuration themselves.
    pub fn conf_source(&self, config: &Config, host: &Host) -> (r: Option<String>)
        ensures
            !(self.backend() == Backend::Alacritty || self.backend() == Backend::Foot) ==> r
                is None,
            self.backend() == Backend::Alacritty ==> (config.term_config_path matches Some(p)
                ==> opt_text(r) == Some(p@)),
            self.backend() == Backend::Foot && config.term_config_path is Some ==> r is None,
            config.term_config_path is None && !config.load_term_conf ==> r is None,
            self.backend() == Backend::Alacritty && config.term_config_path is None
                && config.load_term_conf ==> locate::first_found_among(
                alacritty::default_candidate_texts(),
                var_texts(host.vars@),
                opt_text(r),
            ),
            self.backend() == Backend::Foot && config.term_config_path is None
                && config.load_term_conf ==> locate::first_found_among(
                foot::default_candidate_texts(),
                var_texts(host.vars@),
                opt_text(r),
            ),
    {
        match self {
            Terminal::Alacritty(_) => alacritty::conf_source(config, host),
            Terminal::Foot(_) => foot::conf_source(config, host),
            _ => None,
        }
    }

    /// The terminal's own configuration files that are passed on as flags:
    /// Kitty's, as they exist on this machine, where the user points at no
    /// configuration and asks for the default ones; none otherwise.
    pub fn find_default_confs(&self, config: &Config, host: &Host) -> (r: Vec<String>)
        ensures
            self.backend() != Backend::Kitty || config.term_config_path is Some
                || !config.load_term_conf ==> r@.len() == 0,
            self.backend() == Backend::Kitty && config.term_config_path is None
                && config.load_term_conf ==> locate::found_among(
                kitty::base_candidate_texts(),
                kitty::priority_candidate_texts(),
                var_texts(host.vars@),
                texts(r@),
            ),
            r@.len() <= 2,
    {
        match self {
            Terminal::Kitty(_) => {
                if config.term_config_path.is_none() && config.load_term_conf {
                    kitty::find_default_confs(host)
                } else {
                    Vec::new()
                }
            },
            _ => Vec::new(),
        }
    }

    /// The text of the configuration file to generate for this launch.
    pub fn create_conf_file(&self, config: &Config, content: Option<&str>) -> (r: Result<
        Option<String>,
        GlrnvimError,
    >)
        ensures
            generated_conf(self.backend(), config, opt_str_text(content), r),
    {
        match self {
            Terminal::Urxvt(_) => Ok(None),
            Terminal::Kitty(t) => Ok(Some(t.create_conf_file(config))),
            Terminal::Wezterm(t) => Ok(t.create_conf_file(config)),
            Terminal::Foot(_) => {
                if config.term_config_path.is_some() {
                    Ok(None)
                } else {
                    let mut conf = foot::create_base_conf(config, content);
                    let text = foot::create_conf_file(&mut conf, config);
                    assert(text@ == crate::inifile::ini_text(conf));
                    Ok(Some(text))
                }
            },
            Terminal::Alacritty(_) => {
                match alacritty::create_base_conf(config, content) {
                    Ok(doc) => {
                        let mut doc = doc;
                        match alacritty::create_conf_file(&mut doc, config) {
                            Ok(text) => {
                                assert(text@ == hexquote::quoted_text(crate::toml::doc_text(doc)));
                                Ok(Some(text))
                            },
                            Err(e) => Err(e),
                        }
                    },
                    Err(e) => Err(e),
                }
            },
        }
    }
}

impl Functions for Terminal {
    open spec fn exe_text(&self) -> Seq<char> {
        match self {
            Terminal::Alacritty(t) => t.exe_text(),
            Terminal::Urxvt(t) => t.exe_text(),
            Terminal::Kitty(t) => t.exe_text(),
            Terminal::Wezterm(t) => t.exe_text(),
            Terminal::Foot(t) => t.exe_text(),
        }
    }

    open spec fn command_args(
        &self,
        config: &Config,
        discovered: Seq<Seq<char>>,
        generated: Option<Seq<char>>,
        host: &Host,
    ) -> Seq<Seq<char>> {
        match self {
            Terminal::Alacritty(t) => t.command_args(config, discovered, generated, host),
            Terminal::Urxvt(t) => t.command_args(config, discovered, generated, host),
            Terminal::Kitty(t) => t.command_args(config, discovered, generated, host),
            Terminal::Wezterm(t) => t.command_args(config, discovered, generated, host),
            Terminal::Foot(t) => t.command_args(config, discovered, generated, host),
        }
    }

    fn create_command(
        &self,
        config: &Config,
        discovered: &Vec<String>,
        generated: &Option<String>,
        host: &Host,
    ) -> (r: ProcessDescriptor) {
        match self {
            Terminal::Alacritty(t) => t.create_command(config, discovered, generated, host),
            Terminal::Urxvt(t) => t.create_command(config, discovered, generated, host),
            Terminal::Kitty(t) => t.create_command(config, discovered, generated, host),
            Terminal::Wezterm(t) => t.create_command(config, discovered, generated, host),
            Terminal::Foot(t) => t.create_command(config, discovered, generated, host),
        }
    }
}

/// With an explicit configuration path the invocation does not depend on
/// the generated file nor on discovered ones: neither is referred to.
pub proof fn lemma_explicit_config_ignores_generated(
    terminal: &Terminal,
    config: &Config,
    host: &Host,
    discovered: Seq<Seq<char>>,
    generated: Option<Seq<char>>,
)
    requires
        config.term_config_path is Some,
    ensures
        terminal.command_args(config, discovered, generated, host) == terminal.command_args(
            config,
            Seq::empty(),
            None,
            host,
        ),
{
}

/// The order in which the terminals are tried where none is configured.
pub open spec fn probe_order() -> Seq<Backend> {
    seq![Backend::Alacritty, Backend::Urxvt, Backend::Kitty, Backend::Wezterm, Backend::Foot]
}

/// The name under which a terminal's executable is searched for.
pub open spec fn exe_name_of(backend: Backend) -> Seq<char> {
    match backend {
        Backend::Alacritty => alacritty::ALACRITTY_NAME@,
        Backend::Urxvt => urxvt::URXVT_NAME@,
        Backend::Kitty => kitty::KITTY_NAME@,
        Backend::Wezterm => wezterm::WEZTERM_NAME@,
        Backend::Foot => foot::FOOT_NAME@,
    }
}

/// The outcome of an attempt, as contents: the executable, or the error's
/// description.
pub open spec fn attempt_text(a: Result<Terminal, GlrnvimError>) -> Result<Seq<char>, Seq<char>> {
    match a {
        Ok(t) => Ok(t.exe_text()),
        Err(e) => Err(e.spec_message()),
    }
}

/// Whether `a` can come of resolving the terminal `backend`: on success it
/// is that terminal, with the configured executable or the one that the
/// search for the terminal's name found; a failure is that of this search,
/// and names the executable.
pub open spec fn attempt_of(
    backend: Backend,
    config: &Config,
    platform: Platform,
    a: Result<Terminal, GlrnvimError>,
) -> bool {
    &&& resolution(opt_text(config.term_exe_path), exe_name_of(backend), platform, attempt_text(a))
    &&& a matches Ok(t) ==> t.backend() == backend
    &&& a matches Err(e) ==> e.spec_kind() == ErrorKind::ExecutableNotFound
}

/// Whether `attempts` can come of trying the terminals where none is
/// configured: they are tried in the fixed order, one after the other, and
/// no further once one has resolved.
pub open spec fn attempts_in_order(
    config: &Config,
    platform: Platform,
    attempts: Seq<Result<Terminal, GlrnvimError>>,
) -> bool {
    &&& attempts.len() <= probe_order().len()
    &&& forall|i: int|
        0 <= i < attempts.len() ==> attempt_of(
            probe_order()[i],
            config,
            platform,
            #[trigger] attempts[i],
        )
    &&& forall|i: int| 0 <= i < attempts.len() - 1 ==> (#[trigger] attempts[i]) is Err
    &&& attempts.len() == probe_order().len() || (attempts.len() > 0 && attempts.last() is Ok)
}

/// Whether `r` is the choice among the attempts: the first that succeeded;
/// where none did, the failure for want of a terminal.
pub open spec fn picked(
    attempts: Seq<Result<Terminal, GlrnvimError>>,
    r: Result<Terminal, GlrnvimError>,
) -> bool {
    match first_ok(attempts) {
        Some(i) => r == attempts[i],
        None => r matches Err(e) && e.spec_kind() == ErrorKind::ExecutableNotFound
            && e.spec_message() == "None of the suppported terminals can be found."@,
    }
}

/// The position of the first attempt that succeeded.
pub open spec fn first_ok(attempts: Seq<Result<Terminal, GlrnvimError>>) -> Option<int>
    decreases attempts.len(),
{
    if attempts.len() == 0 {
        None
    } else if attempts[0] is Ok {
        Some(0)
    } else {
        match first_ok(attempts.drop_first()) {
            Some(i) => Some(i + 1),
            None => None,
        }
    }
}

/// What `first_ok` finds is an attempt that succeeded, and no earlier one
/// did.
pub proof fn lemma_first_ok(attempts: Seq<Result<Terminal, GlrnvimError>>)
    ensures
        first_ok(attempts) matches Some(i) ==> 0 <= i < attempts.len() && attempts[i] is Ok
            && forall|j: int| 0 <= j < i ==> attempts[j] is Err,
        first_ok(attempts) is None ==> forall|j: int| 0 <= j < attempts.len() ==> attempts[j] is Err,
    decreases attempts.len(),
{
    if attempts.len() > 0 && attempts[0] is Err {
        let rest = attempts.drop_first();
        lemma_first_ok(rest);
        assert forall|j: int| 0 <= j < rest.len() implies rest[j] == attempts[j + 1] by {}
        match first_ok(rest) {
            Some(i) => {
                assert forall|j: int| 0 <= j < i + 1 implies attempts[j] is Err by {
                    if j > 0 {
                        assert(rest[j - 1] == attempts[j]);
                    }
                }
            },
            None => {
                assert forall|j: int| 0 <= j < attempts.len() implies attempts[j] is Err by {
                    if j > 0 {
                        assert(rest[j - 1] == attempts[j]);
                    }
                }
            },
        }
    }
}

/// Resolves the given terminal: with the configured executable as it is,
/// else with what the search for the terminal's name finds.
pub fn init_backend(backend: Backend, config: &Config, platform: Platform) -> (r: Result<
    Terminal,
    GlrnvimError,
>)
    ensures
        attempt_of(backend, config, platform, r),
        r matches Ok(t) ==> t.backend() == backend,
        config.term_exe_path matches Some(p) ==> r matches Ok(t) && t.exe_text() == p@,
        r matches Err(e) ==> e.spec_kind() == ErrorKind::ExecutableNotFound && exists|
            detail: Option<Seq<char>>,
        | e.spec_message() == #[trigger] not_found_message(exe_name_of(backend), detail),
{
    let r = match backend {
        Backend::Alacritty => match alacritty::init(config, platform) {
            Ok(t) => Ok(Terminal::Alacritty(t)),
            Err(e) => Err(e),
        },
        Backend::Urxvt => match urxvt::init(config, platform) {
            Ok(t) => Ok(Terminal::Urxvt(t)),
            Err(e) => Err(e),
        },
        Backend::Kitty => match kitty::init(config, platform) {
            Ok(t) => Ok(Terminal::Kitty(t)),
            Err(e) => Err(e),
        },
        Backend::Wezterm => match wezterm::init(config, platform) {
            Ok(t) => Ok(Terminal::Wezterm(t)),
            Err(e) => Err(e),
        },
        Backend::Foot => match foot::init(config, platform) {
            Ok(t) => Ok(Terminal::Foot(t)),
            Err(e) => Err(e),
        },
    };
    proof {
        if r is Err {
            lemma_search_names_executable(exe_name_of(backend), platform, attempt_text(r));
        }
    }
    r
}

/// Picks the first attempt that succeeded; where none did, the launch
/// fails for want of a terminal.
pub fn pick_terminal(attempts: Vec<Result<Terminal, GlrnvimError>>) -> (r: Result<
    Terminal,
    GlrnvimError,
>)
    ensures
        picked(attempts@, r),
{
    let ghost all = attempts@;
    let ghost n = all.len();
    let mut pending = attempts;
    let total = pending.len();
    assert(n == total);
    let mut rest: Vec<Result<Terminal, GlrnvimError>> = Vec::new();
    // Reverse, so that the attempts can be taken out in their order.
    while pending.len() > 0
        invariant
            n == all.len(),
            n <= usize::MAX,
            rest@.len() + pending@.len() == n,
            forall|j: int| 0 <= j < pending@.len() ==> pending@[j] == all[j],
            forall|j: int| 0 <= j < rest@.len() ==> rest@[j] == all[n - 1 - j],
        decreases pending@.len(),
    {
        let a = pending.pop().unwrap();
        rest.push(a);
    }
    let mut k: usize = 0;
    proof {
        assert(all.subrange(0, n as int) =~= all);
    }
    while rest.len() > 0
        invariant
            n == all.len(),
            n <= usize::MAX,
            all == attempts@,
            k + rest@.len() == n,
            forall|j: int| 0 <= j < rest@.len() ==> rest@[j] == all[n - 1 - j],
            first_ok(all) == match first_ok(all.subrange(k as int, n as int)) {
                Some(i) => Some(i + k),
                None => None,
            },
        decreases rest@.len(),
    {
        let ghost tail = all.subrange(k as int, n as int);
        let a = rest.pop().unwrap();
        proof {
            assert(tail[0] == all[k as int]);
            assert(a == all[k as int]);
            assert(tail.drop_first() =~= all.subrange(k + 1, n as int));
        }
        match a {
            Ok(t) => {
                return Ok(t);
            },
            Err(_) => {},
        }
        k += 1;
    }
    proof {
        assert(all.subrange(k as int, n as int) =~= Seq::<Result<Terminal, GlrnvimError>>::empty());
    }
    Err(
        GlrnvimError::with_kind(
            ErrorKind::ExecutableNotFound,
            String::from_str("None of the suppported terminals can be found."),
        ),
    )
}

/// The terminals in the order in which they are tried.
pub fn probe_backends() -> (r: Vec<Backend>)
    ensures
        r@ == probe_order(),
{
    let mut r: Vec<Backend> = Vec::new();
    r.push(Backend::Alacritty);
    r.push(Backend::Urxvt);
    r.push(Backend::Kitty);
    r.push(Backend::Wezterm);
    r.push(Backend::Foot);
    assert(r@ =~= probe_order());
    r
}

/// Tries the terminals in their fixed order and stops at the first that
/// resolves: the attempts made, in that order.
pub fn probe_terminals(config: &Config, platform: Platform) -> (attempts: Vec<
    Result<Terminal, GlrnvimError>,
>)
    ensures
        attempts_in_order(config, platform, attempts@),
{
    let order = probe_backends();
    let mut attempts: Vec<Result<Terminal, GlrnvimError>> = Vec::new();
    let mut i: usize = 0;
    while i < order.len()
        invariant
            i <= order.len(),
            order@ == probe_order(),
            attempts@.len() == i,
            forall|j: int|
                0 <= j < i ==> attempt_of(probe_order()[j], config, platform, #[trigger] attempts@[j]),
            forall|j: int| 0 <= j < i ==> (#[trigger] attempts@[j]) is Err,
        decreases order.len() - i,
    {
        let attempt = init_backend(order[i], config, platform);
        let resolved = attempt.is_ok();
        attempts.push(attempt);
        if resolved {
            return attempts;
        }
        i += 1;
    }
    attempts
}

/// With no terminal configured, the terminal chosen is the first in the
/// fixed order that resolved, no terminal after it was tried, and a failure
/// says that none was found.
pub proof fn lemma_first_in_order_wins(
    config: &Config,
    platform: Platform,
    attempts: Seq<Result<Terminal, GlrnvimError>>,
    r: Result<Terminal, GlrnvimError>,
)
    requires
        attempts_in_order(config, platform, attempts),
        picked(attempts, r),
    ensures
        r matches Ok(t) ==> attempts.len() > 0 && r == attempts.last() && t.backend()
            == probe_order()[attempts.len() - 1],
        r matches Err(e) ==> attempts.len() == probe_order().len() && e.spec_kind()
            == ErrorKind::ExecutableNotFound && e.spec_message()
            == "None of the suppported terminals can be found."@,
        config.term_exe_path is Some ==> (r matches Ok(t) && t.backend() == Backend::Alacritty),
{
    lemma_first_ok(attempts);
    match first_ok(attempts) {
        Some(i) => {
            assert(attempts[i] is Ok);
            assert(i == attempts.len() - 1);
        },
        None => {
            if attempts.len() > 0 {
                assert(attempts[attempts.len() - 1] is Err);
            }
        },
    }
    if config.term_exe_path is Some {
        assert(attempts.len() > 0);
        assert(attempt_of(probe_order()[0], config, platform, attempts[0]));
        assert(attempts[0] is Ok);
    }
}

/// Selects the terminal. A configured terminal is resolved, and no other is
/// tried. Where none is configured, the terminals are tried in their fixed
/// order, and the first whose executable resolves is the one: the result is
/// the choice of `picked` on the attempts. Which executables resolve is for
/// the machine to say.
pub fn init(config: &Config, platform: Platform) -> (r: Result<Terminal, GlrnvimError>)
    ensures
        config.backend matches Some(b) ==> attempt_of(b, config, platform, r),
        config.backend is None ==> exists|attempts: Seq<Result<Terminal, GlrnvimError>>| #[trigger]
            attempts_in_order(config, platform, attempts) && picked(attempts, r),
        config.backend matches Some(b) ==> (r matches Err(e) ==> exists|detail: Option<Seq<char>>|
            e.spec_message() == #[trigger] not_found_message(exe_name_of(b), detail)),
        config.backend is None ==> (r matches Err(e) ==> e.spec_message()
            == "None of the suppported terminals can be found."@),
        config.term_exe_path matches Some(p) ==> r matches Ok(t) && t.exe_text() == p@,
        config.backend is None && config.term_exe_path is Some ==> (r matches Ok(t) && t.backend()
            == Backend::Alacritty),
        r matches Err(e) ==> e.spec_kind() == ErrorKind::ExecutableNotFound,
{
    match config.backend {
        Some(backend) => init_backend(backend, config, platform),
        None => {
            let attempts = probe_terminals(config, platform);
            let ghost tried = attempts@;
            let r = pick_terminal(attempts);
            proof {
                lemma_first_in_order_wins(config, platform, tried, r);
                if config.term_exe_path is Some {
                    assert(r == tried[0]);
                }
            }
            r
        },
    }
}

} // verus!
