//! Locating a terminal's executable.

use crate::error::ErrorKind;
use crate::error::GlrnvimError;
use crate::host::home_dir;
use crate::host::is_file;
use crate::host::which_error_text;
use crate::host::which_lookup;
use crate::host::Platform;
use crate::text::opt_text;
use crate::text::push_char;
use vstd::prelude::*;

verus! {

/// The upper-case form of an ASCII lower-case letter; any other character
/// unchanged.
pub open spec fn ascii_upper(c: char) -> char {
    if 'a' <= c && c <= 'z' {
        ((c as u8) - 32) as char
    } else {
        c
    }
}

/// `name` with its first character in upper case, where that is an ASCII
/// letter.
pub open spec fn capitalized(name: Seq<char>) -> Seq<char> {
    if name.len() == 0 {
        name
    } else {
        seq![ascii_upper(name[0])] + name.subrange(1, name.len() as int)
    }
}

/// The path of an executable inside an application bundle below `root`.
pub open spec fn bundle_path(root: Seq<char>, name: Seq<char>) -> Seq<char> {
    with_separator(root) + capitalized(name) + ".app/Contents/MacOS/"@ + name
}

/// A directory's path, ready for a name to follow: with a `/` at its end,
/// unless it has one already or is empty.
pub open spec fn with_separator(root: Seq<char>) -> Seq<char> {
    if root.len() == 0 || root.last() == '/' {
        root
    } else {
        root + "/"@
    }
}

/// The description of a failed search for `name`, with the search's own
/// explanation where one is reported.
pub open spec fn not_found_message(name: Seq<char>, detail: Option<Seq<char>>) -> Seq<char> {
    let plain = "'"@ + name + "' executable cannot be found."@;
    match detail {
        Some(d) => plain + " "@ + d,
        None => plain,
    }
}

/// Where the executable `name` is, given what each lookup strategy found:
/// the search path first; on macOS then the system-wide application bundle
/// and the bundle in the home directory. `Err` holds the description of the
/// failure.
pub open spec fn resolved(
    name: Seq<char>,
    platform: Platform,
    search: Result<Seq<char>, Seq<char>>,
    system_bundle_is_file: bool,
    home: Option<Seq<char>>,
    home_bundle_is_file: bool,
) -> Result<Seq<char>, Seq<char>> {
    match search {
        Ok(p) => Ok(p),
        Err(detail) => if platform != Platform::MacOs {
            Err(not_found_message(name, Some(detail)))
        } else if system_bundle_is_file {
            Ok(bundle_path("/Applications"@, name))
        } else if home is Some && home_bundle_is_file {
            Ok(bundle_path(home->Some_0, name))
        } else {
            Err(not_found_message(name, None))
        },
    }
}

/// Whether `outcome` is what the search for `name` gives on some state of
/// the machine: the decision of `resolved` on what the lookup strategies
/// found there.
pub open spec fn search_outcome(
    name: Seq<char>,
    platform: Platform,
    outcome: Result<Seq<char>, Seq<char>>,
) -> bool {
    exists|
        search: Result<Seq<char>, Seq<char>>,
        system_bundle_is_file: bool,
        home: Option<Seq<char>>,
        home_bundle_is_file: bool,
    |
        outcome == #[trigger] resolved(
            name,
            platform,
            search,
            system_bundle_is_file,
            home,
            home_bundle_is_file,
        )
}

/// What resolving an executable gives: an explicit path as it is, and
/// otherwise an outcome of the search for `name`.
pub open spec fn resolution(
    explicit: Option<Seq<char>>,
    name: Seq<char>,
    platform: Platform,
    outcome: Result<Seq<char>, Seq<char>>,
) -> bool {
    match explicit {
        Some(p) => outcome == Ok::<Seq<char>, Seq<char>>(p),
        None => search_outcome(name, platform, outcome),
    }
}

/// A failed search is described by the name that was searched for.
pub proof fn lemma_search_names_executable(
    name: Seq<char>,
    platform: Platform,
    outcome: Result<Seq<char>, Seq<char>>,
)
    requires
        search_outcome(name, platform, outcome),
    ensures
        outcome matches Err(m) ==> exists|detail: Option<Seq<char>>|
            m == #[trigger] not_found_message(name, detail),
{
    if let Err(m) = outcome {
        let (search, s, home, h) = choose|
            search: Result<Seq<char>, Seq<char>>,
            s: bool,
            home: Option<Seq<char>>,
            h: bool,
        | outcome == #[trigger] resolved(name, platform, search, s, home, h);
        if platform != Platform::MacOs {
            assert(m == not_found_message(name, Some(search->Err_0)));
        } else {
            assert(m == not_found_message(name, None));
        }
    }
}

/// The contents of a lookup result.
pub open spec fn search_text(search: Result<String, String>) -> Result<Seq<char>, Seq<char>> {
    match search {
        Ok(p) => Ok(p@),
        Err(d) => Err(d@),
    }
}

/// The outcome of a resolution, as contents: the path or the error's
/// description.
pub open spec fn outcome_text(r: Result<String, GlrnvimError>) -> Result<Seq<char>, Seq<char>> {
    match r {
        Ok(p) => Ok(p@),
        Err(e) => Err(e.spec_message()),
    }
}

/// Writes `name` with its first character in upper case.
pub fn capitalize(name: &str) -> (r: String)
    ensures
        r@ == capitalized(name@),
{
    let n = name.unicode_len();
    let mut r = String::new();
    if n == 0 {
        assert(r@ =~= name@);
        return r;
    }
    let c = name.get_char(0);
    let up = if 'a' <= c && c <= 'z' {
        ((c as u8) - 32) as char
    } else {
        c
    };
    push_char(&mut r, up);
    r.append(name.substring_char(1, n));
    assert(r@ =~= capitalized(name@));
    r
}

/// Writes the path of the executable `name` inside its application bundle
/// below `root`.
pub fn bundle_executable(root: &str, name: &str) -> (r: String)
    ensures
        r@ == bundle_path(root@, name@),
{
    let mut r = String::from_str(root);
    let n = root.unicode_len();
    if n > 0 && root.get_char(n - 1) != '/' {
        r.append("/");
    }
    assert(r@ == with_separator(root@));
    r.append(capitalize(name).as_str());
    r.append(".app/Contents/MacOS/");
    r.append(name);
    r
}

/// Describes a failed search for `name`.
pub fn not_found(name: &str, detail: Option<&str>) -> (e: GlrnvimError)
    ensures
        e.spec_kind() == ErrorKind::ExecutableNotFound,
        e.spec_message() == not_found_message(
            name@,
            match detail {
                Some(d) => Some(d@),
                None => None,
            },
        ),
{
    let mut m = String::from_str("'");
    m.append(name);
    m.append("' executable cannot be found.");
    match detail {
        Some(d) => {
            m.append(" ");
            m.append(d);
        },
        None => {},
    }
    GlrnvimError::with_kind(ErrorKind::ExecutableNotFound, m)
}

/// Decides where the executable `name` is from what each lookup strategy
/// found. The search path wins; on macOS the system-wide application bundle
/// and then the bundle under the home directory are the fallbacks. A
/// strategy that found nothing is passed over, and only when all have
/// failed is the search an error.
pub fn choose_executable(
    name: &str,
    platform: Platform,
    search: Result<String, String>,
    system_bundle_is_file: bool,
    home: Option<String>,
    home_bundle_is_file: bool,
) -> (r: Result<String, GlrnvimError>)
    ensures
        outcome_text(r) == resolved(
            name@,
            platform,
            search_text(search),
            system_bundle_is_file,
            opt_text(home),
            home_bundle_is_file,
        ),
        r matches Err(e) ==> e.spec_kind() == ErrorKind::ExecutableNotFound,
{
    match search {
        Ok(p) => Ok(p),
        Err(detail) => {
            if platform != Platform::MacOs {
                return Err(not_found(name, Some(detail.as_str())));
            }
            if system_bundle_is_file {
                return Ok(bundle_executable("/Applications", name));
            }
            match home {
                Some(h) => {
                    if home_bundle_is_file {
                        return Ok(bundle_executable(h.as_str(), name));
                    }
                },
                None => {},
            }
            Err(not_found(name, None))
        },
    }
}

/// Searches for the executable `name`: the search path, and on macOS the
/// application bundles. What is found is for the machine to say; the result
/// is the decision of `resolved` on its answers. A failure is always
/// reported as `ExecutableNotFound`, with the name that was searched for.
pub fn find_executable(exe_name: &str, platform: Platform) -> (r: Result<String, GlrnvimError>)
    ensures
        search_outcome(exe_name@, platform, outcome_text(r)),
        r matches Err(e) ==> e.spec_kind() == ErrorKind::ExecutableNotFound && exists|
            detail: Option<Seq<char>>,
        | e.spec_message() == #[trigger] not_found_message(exe_name@, detail),
{
    let search = match which_lookup(exe_name) {
        Ok(p) => Ok(p),
        Err(e) => Err(which_error_text(&e)),
    };
    // Each strategy is tried only where the ones before it found nothing.
    let mut system_bundle_is_file = false;
    let mut home: Option<String> = None;
    let mut home_bundle_is_file = false;
    if search.is_err() && platform == Platform::MacOs {
        system_bundle_is_file = is_file(bundle_executable("/Applications", exe_name).as_str());
        if !system_bundle_is_file {
            home = home_dir();
            home_bundle_is_file = match &home {
                Some(h) => is_file(bundle_executable(h.as_str(), exe_name).as_str()),
                None => false,
            };
        }
    }
    let ghost found = search_text(search);
    let r = choose_executable(
        exe_name,
        platform,
        search,
        system_bundle_is_file,
        home,
        home_bundle_is_file,
    );
    proof {
        if r is Err {
            let detail = if platform != Platform::MacOs {
                Some(found->Err_0)
            } else {
                None
            };
            assert(r->Err_0.spec_message() == not_found_message(exe_name@, detail));
        }
    }
    r
}

/// Resolves a terminal's executable: an explicit path is authoritative and
/// returned as it is, without a look at the file system; otherwise the
/// executable is searched for by name.
pub fn exe_path(explicit: &Option<String>, exe_name: &str, platform: Platform) -> (r: Result<
    String,
    GlrnvimError,
>)
    ensures
        resolution(opt_text(*explicit), exe_name@, platform, outcome_text(r)),
        explicit matches Some(p) ==> r matches Ok(q) && q@ == p@,
        r matches Err(e) ==> e.spec_kind() == ErrorKind::ExecutableNotFound && exists|
            detail: Option<Seq<char>>,
        | e.spec_message() == #[trigger] not_found_message(exe_name@, detail),
{
    match explicit {
        Some(p) => Ok(p.clone()),
        None => find_executable(exe_name, platform),
    }
}

} // verus!
