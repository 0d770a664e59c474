//! Resolution of the default on-disk location of the database file: a pure
//! composition of the platform's user directory with a fixed relative suffix.
//! No directory is created here; the resolver only computes the path.

use vstd::prelude::*;
use vstd::string::*;

use crate::error::DatabaseError;
use crate::error::DatabaseResult;

verus! {

/// `s` ends with `suffix`.
pub open spec fn ends_with_seq(s: Seq<char>, suffix: Seq<char>) -> bool {
    suffix.len() <= s.len() && s.subrange(s.len() - suffix.len(), s.len() as int) == suffix
}

/// `s` begins with `prefix`.
pub open spec fn starts_with_seq(s: Seq<char>, prefix: Seq<char>) -> bool {
    prefix.len() <= s.len() && s.subrange(0, prefix.len() as int) == prefix
}

/// The default location on a POSIX-like host: `<home>/.burncloud/data.db`,
/// written with the platform's separator.
pub open spec fn posix_default_path_spec(home: Seq<char>, sep: Seq<char>) -> Seq<char> {
    home + sep + ".burncloud"@ + sep + "data.db"@
}

/// The default location on a Windows-like host:
/// `<profile>\AppData\Local\BurnCloud\data.db`, written with the platform's
/// separator.
pub open spec fn windows_default_path_spec(profile: Seq<char>, sep: Seq<char>) -> Seq<char> {
    profile + sep + "AppData"@ + sep + "Local"@ + sep + "BurnCloud"@ + sep + "data.db"@
}

/// Relies on std::path::MAIN_SEPARATOR_STR: the platform's path separator,
/// `\` on Windows and `/` elsewhere, as a string of that one character.
#[verifier::external_body]
fn main_separator_str() -> (r: &'static str)
    ensures
        r@.len() == 1,
{
    std::path::MAIN_SEPARATOR_STR
}

/// Relies on dirs::home_dir: the user's home directory (the profile folder
/// on Windows), if the host environment defines one. The result depends on
/// the environment, so nothing is promised of it.
#[verifier::external_body]
fn home_dir_string() -> (r: Option<String>)
{
    dirs::home_dir().map(|p| p.to_string_lossy().to_string())
}

/// Whether this host writes paths the Windows way. Decided by the
/// platform's path separator.
pub fn is_windows() -> bool {
    let sep = main_separator_str();
    sep.get_char(0) == '\\'
}

/// Composes the default database location under `home` on a POSIX-like host.
pub fn posix_default_path(home: &str, sep: &str) -> (r: String)
    ensures
        r@ == posix_default_path_spec(home@, sep@),
{
    home.to_owned().concat(sep).concat(".burncloud").concat(sep).concat("data.db")
}

/// Composes the default database location under `profile` on a Windows-like
/// host.
pub fn windows_default_path(profile: &str, sep: &str) -> (r: String)
    ensures
        r@ == windows_default_path_spec(profile@, sep@),
{
    profile.to_owned().concat(sep).concat("AppData").concat(sep).concat("Local").concat(
        sep,
    ).concat("BurnCloud").concat(sep).concat("data.db")
}

/// A sequence that ends in `b` stays as it is when `b` is cut off the end.
proof fn lemma_concat_ends_with(a: Seq<char>, b: Seq<char>)
    ensures
        ends_with_seq(a + b, b),
{
    let s = a + b;
    assert forall|i: int| 0 <= i < b.len() implies s[s.len() - b.len() + i] == b[i] by {}
    assert(s.subrange(s.len() - b.len(), s.len() as int) =~= b);
}

/// A concatenation starts with its left part.
proof fn lemma_concat_starts_with(a: Seq<char>, b: Seq<char>)
    ensures
        starts_with_seq(a + b, a),
{
    let s = a + b;
    assert(s.subrange(0, a.len() as int) =~= a);
}

/// For every home directory and every separator, both platform variants of
/// the default location end with the fixed file name `data.db`, and begin
/// with the user directory they were derived from — so the result is
/// absolute whenever that directory is.
pub proof fn lemma_default_path_shape(home: Seq<char>, sep: Seq<char>)
    ensures
        ends_with_seq(posix_default_path_spec(home, sep), "data.db"@),
        ends_with_seq(windows_default_path_spec(home, sep), "data.db"@),
        starts_with_seq(posix_default_path_spec(home, sep), home),
        starts_with_seq(windows_default_path_spec(home, sep), home),
{
    lemma_concat_ends_with(home + sep + ".burncloud"@ + sep, "data.db"@);
    lemma_concat_ends_with(home + sep + "AppData"@ + sep + "Local"@ + sep + "BurnCloud"@ + sep,
        "data.db"@);
    lemma_concat_starts_with(home, sep + ".burncloud"@ + sep + "data.db"@);
    assert(home + (sep + ".burncloud"@ + sep + "data.db"@) =~= posix_default_path_spec(home, sep));
    lemma_concat_starts_with(home, sep + "AppData"@ + sep + "Local"@ + sep + "BurnCloud"@ + sep
        + "data.db"@);
    assert(home + (sep + "AppData"@ + sep + "Local"@ + sep + "BurnCloud"@ + sep + "data.db"@)
        =~= windows_default_path_spec(home, sep));
}

/// `p` is a default database location: some user directory, extended by one
/// of the two platform suffixes written with a one-character separator.
pub open spec fn is_default_path_shape(p: Seq<char>) -> bool {
    exists|home: Seq<char>, sep: Seq<char>|
        sep.len() == 1 && (#[trigger] posix_default_path_spec(home, sep) == p
            || #[trigger] windows_default_path_spec(home, sep) == p)
}

/// Computes the default database location for this host: the user's home
/// directory (profile folder on Windows-like hosts) extended by the fixed
/// suffix. Reads the host environment and nothing else; no filesystem access
/// takes place, so no directory is created here. Fails exactly when the
/// environment defines no user directory, with one of the two fixed
/// diagnostics.
pub fn get_default_database_path() -> (r: DatabaseResult<String>)
    ensures
        r matches Ok(p) ==> is_default_path_shape(p@) && ends_with_seq(p@, "data.db"@),
        r matches Err(e) ==> (e matches DatabaseError::PathResolution(m) && (m@
            == "USERPROFILE not found"@ || m@ == "Home directory not found"@)),
{
    let sep = main_separator_str();
    if is_windows() {
        // The profile folder comes from the platform's user-directory
        // mechanism (on Windows hosts it stands for %USERPROFILE%); the
        // diagnostic keeps the fixed text naming that variable.
        match home_dir_string() {
            Some(profile) => {
                let p = windows_default_path(profile.as_str(), sep);
                proof {
                    lemma_default_path_shape(profile@, sep@);
                    assert(sep@.len() == 1 && windows_default_path_spec(profile@, sep@) == p@);
                }
                Ok(p)
            },
            None => Err(DatabaseError::PathResolution("USERPROFILE not found".to_owned())),
        }
    } else {
        match home_dir_string() {
            Some(home) => {
                let p = posix_default_path(home.as_str(), sep);
                proof {
                    lemma_default_path_shape(home@, sep@);
                    assert(sep@.len() == 1 && posix_default_path_spec(home@, sep@) == p@);
                }
                Ok(p)
            },
            None => Err(DatabaseError::PathResolution("Home directory not found".to_owned())),
        }
    }
}

} // verus!
