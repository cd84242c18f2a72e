//! INI files, as the `rust-ini` crate holds and edits them.
//!
//! An `Ini` value is opaque to the verifier: `ini_values` names what it
//! holds, and the contracts below say what each operation of that crate
//! does to it. None of these contracts is proved.

use vstd::prelude::*;

verus! {

/// `ini::Ini`, an INI file in memory; opaque here.
#[verifier::external_type_specification]
#[verifier::external_body]
pub struct ExIni(ini::Ini);

/// `ini::ParseError`, the error of a failed parse; opaque here.
#[verifier::external_type_specification]
#[verifier::external_body]
pub struct ExIniParseError(ini::ParseError);

/// The values of an INI file: section and key to value. The section is
/// `None` for keys that stand before the first section header.
pub type IniValues = Map<(Option<Seq<char>>, Seq<char>), Seq<char>>;

/// No values.
pub open spec fn no_values() -> IniValues {
    Map::empty()
}

/// The value that an INI file gives for each section and key (the first,
/// where a key is given more than once).
pub uninterp spec fn ini_values(i: ini::Ini) -> Map<(Option<Seq<char>>, Seq<char>), Seq<char>>;

/// The text that an INI file is written as, with the line separator of the
/// platform the library is built for.
pub uninterp spec fn ini_text(i: ini::Ini) -> Seq<char>;

/// The values of the INI file that a text parses to; `None` where the text
/// is not a well-formed INI file.
pub uninterp spec fn ini_parse(text: Seq<char>) -> Option<
    Map<(Option<Seq<char>>, Seq<char>), Seq<char>>,
>;

/// `Ini::new`: an INI file without values.
#[verifier::external_body]
pub(crate) fn ini_new() -> (i: ini::Ini)
    ensures
        ini_values(i) == no_values(),
{
    ini::Ini::new()
}

/// `Ini::load_from_str`: parses an INI file. It succeeds exactly on
/// well-formed text, and the file then holds what `ini_parse` names.
#[verifier::external_body]
pub(crate) fn ini_load(text: &str) -> (r: Result<ini::Ini, ini::ParseError>)
    ensures
        r matches Ok(i) ==> ini_parse(text@) == Some(ini_values(i)),
        r is Err ==> ini_parse(text@) is None,
{
    ini::Ini::load_from_str(text)
}

/// `Ini::set_to`: sets the value of `key` in `section`, in place of every
/// value the key had there.
#[verifier::external_body]
pub(crate) fn ini_set(i: &mut ini::Ini, section: &str, key: &str, value: &str)
    ensures
        ini_values(*final(i)) == ini_values(*old(i)).insert((Some(section@), key@), value@),
{
    i.set_to(Some(section), key.to_string(), value.to_string());
}

/// `Ini::write_to`, into memory: the INI file as text.
#[verifier::external_body]
pub(crate) fn ini_to_string(i: &ini::Ini) -> (s: String)
    ensures
        s@ == ini_text(*i),
{
    let mut buf: Vec<u8> = Vec::new();
    i.write_to(&mut buf).unwrap_or_default();
    String::from_utf8_lossy(&buf).into_owned()
}

} // verus!
