//! What the library asks of the machine it runs on: executable lookup, file
//! probes and the home directory. Each answer depends on the machine's
//! state, so the contracts here promise nothing about it; the decisions
//! taken on the answers are verified where they are made. The environment
//! variables are not read here: the caller hands them in with the `Host`,
//! so that an expansion is a function of what it is given.

use crate::text::opt_text;
use crate::text::texts;
use vstd::prelude::*;

verus! {

/// The operating system the launcher runs on, as far as the launch differs.
#[derive(Clone, Copy, Debug, PartialEq, Eq, Structural)]
pub enum Platform {
    Linux,
    MacOs,
    Other,
}

/// What the launcher knows of its surroundings.
#[derive(Debug)]
pub struct Host {
    pub platform: Platform,
    /// The current working directory, where it can be determined.
    pub current_dir: Option<String>,
    /// The environment variables, each as its name and its value.
    pub vars: Vec<(String, String)>,
}

/// The environment variables of a list, each as the texts of its name and
/// its value.
pub open spec fn var_texts(vars: Seq<(String, String)>) -> Seq<(Seq<char>, Seq<char>)> {
    Seq::new(vars.len(), |i: int| (vars[i].0@, vars[i].1@))
}

/// The value of the variable `name`: that of the first listed variable of
/// that name, and the empty text where there is none.
pub open spec fn value_of(vars: Seq<(Seq<char>, Seq<char>)>, name: Seq<char>) -> Seq<char>
    decreases vars.len(),
{
    if vars.len() == 0 {
        Seq::empty()
    } else if vars[0].0 == name {
        vars[0].1
    } else {
        value_of(vars.drop_first(), name)
    }
}

/// Looks up an environment variable. An undefined variable has the empty
/// value.
pub fn lookup_var(vars: &Vec<(String, String)>, name: &str) -> (r: String)
    ensures
        r@ == value_of(var_texts(vars@), name@),
{
    let ghost all = var_texts(vars@);
    let wanted = String::from_str(name);
    let mut i: usize = 0;
    assert(all.subrange(0, all.len() as int) =~= all);
    while i < vars.len()
        invariant
            i <= vars.len(),
            all == var_texts(vars@),
            wanted@ == name@,
            value_of(all, name@) == value_of(all.subrange(i as int, all.len() as int), name@),
        decreases vars.len() - i,
    {
        let ghost rest = all.subrange(i as int, all.len() as int);
        assert(rest[0] == all[i as int]);
        assert(rest.drop_first() =~= all.subrange(i + 1, all.len() as int));
        if vars[i].0 == wanted {
            return vars[i].1.clone();
        }
        i += 1;
    }
    assert(all.subrange(i as int, all.len() as int) =~= Seq::empty());
    String::new()
}

/// The environment variables that must not reach the terminal: on macOS
/// those by which a terminal started from another one would take itself for
/// that one.
pub open spec fn unset_variables(platform: Platform) -> Seq<Seq<char>> {
    if platform == Platform::MacOs {
        seq!["TERM_PROGRAM"@, "TERM_PROGRAM_VERSION"@]
    } else {
        Seq::empty()
    }
}

/// The environment variables to remove before the terminal is started.
pub fn prepare_env(platform: Platform) -> (r: Vec<String>)
    ensures
        texts(r@) == unset_variables(platform),
{
    let mut r: Vec<String> = Vec::new();
    if platform == Platform::MacOs {
        r.push(String::from_str("TERM_PROGRAM"));
        r.push(String::from_str("TERM_PROGRAM_VERSION"));
    }
    assert(texts(r@) =~= unset_variables(platform));
    r
}

/// `which::Error`, the error of a failed lookup; opaque here.
#[verifier::external_type_specification]
#[verifier::external_body]
pub struct ExWhichError(which::Error);

/// `which::which`: searches the executable search path for `name`. The
/// outcome depends on the environment and the file system; nothing is
/// claimed of it. A path that is not valid Unicode comes back with the
/// offending parts replaced.
#[verifier::external_body]
pub(crate) fn which_lookup(name: &str) -> Result<String, which::Error> {
    which::which(name).map(|p| p.to_string_lossy().into_owned())
}

/// The lookup error's own description (`Display` of `which::Error`).
#[verifier::external_body]
pub(crate) fn which_error_text(e: &which::Error) -> String {
    e.to_string()
}

/// `std::path::Path::is_file`: whether `path` names an existing regular
/// file. The outcome depends on the file system; nothing is claimed of it.
#[verifier::external_body]
pub(crate) fn is_file(path: &str) -> bool {
    std::path::Path::new(path).is_file()
}

/// `dirs::home_dir`: the user's home directory, if it can be determined. A
/// path that is not valid Unicode comes back with the offending parts
/// replaced.
#[verifier::external_body]
pub(crate) fn home_dir() -> Option<String> {
    dirs::home_dir().map(|p| p.to_string_lossy().into_owned())
}

/// Whether a path holds nothing to expand: no `$`, and no `~` at its start.
pub open spec fn is_plain_path(path: Seq<char>) -> bool {
    !path.contains('$') && !(path.len() > 0 && path[0] == '~')
}

/// What a path template expands to: a leading `~` replaced by the home
/// directory, and each variable by its value among `vars`, as
/// `shellexpand::full_with_context_no_errors` does it on the platform the
/// library is built for.
pub uninterp spec fn expansion(
    input: Seq<char>,
    home: Option<Seq<char>>,
    vars: Seq<(Seq<char>, Seq<char>)>,
) -> Seq<char>;

/// `shellexpand::full_with_context_no_errors`: expands a leading `~` to
/// `home` and the variables in `input` to what `lookup_var` finds for them
/// among `vars`, so that an undefined variable expands to the empty text.
/// The result is a function of these three; an input that holds nothing to
/// expand comes back as it is.
#[verifier::external_body]
pub(crate) fn expand(input: &str, home: &Option<String>, vars: &Vec<(String, String)>) -> (r:
    String)
    ensures
        r@ == expansion(input@, opt_text(*home), var_texts(vars@)),
        is_plain_path(input@) ==> r@ == input@,
{
    shellexpand::full_with_context_no_errors(
        input,
        || home.as_ref(),
        |name| Some(lookup_var(vars, name)),
    ).into_owned()
}

/// The final component of a path, as `std::path::Path::file_name` gives it
/// under the path syntax of the platform the library is built for.
pub uninterp spec fn path_file_name(path: Seq<char>) -> Option<Seq<char>>;

/// `std::path::Path::file_name`: the final component of `path`, if it has
/// one. The result is a function of the path's text alone.
#[verifier::external_body]
pub(crate) fn file_name(path: &str) -> (name: Option<String>)
    ensures
        opt_text(name) == path_file_name(path@),
{
    std::path::Path::new(path).file_name().map(|n| n.to_string_lossy().into_owned())
}

} // verus!
