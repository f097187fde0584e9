//! Choosing the transcoder binary that ships with the application.
//!
//! The transcoder is looked for in two places, in a fixed order: beside the
//! running executable, then in the development tree. The caller probes the
//! file system and hands in what it found; the choice is made here.

use vstd::prelude::*;
use vstd::string::*;
use crate::text::option_text;

verus! {

/// The error type of `tauri_utils`, carried through as it is.
#[verifier::external_type_specification]
#[verifier::external_body]
pub struct ExPlatformError(tauri_utils::Error);

/// The file name under which the transcoder for platform `triple` is bundled.
pub open spec fn transcoder_file_name_spec(triple: Seq<char>) -> Seq<char> {
    "ffmpeg-"@ + triple + ".exe"@
}

/// The directory of the development tree that holds the bundled binaries,
/// relative to the directory the application is started from.
pub open spec fn development_dir_spec() -> Seq<char> {
    "src-tauri/bin"@
}

/// The location that is chosen: the one beside the executable where the
/// transcoder exists there, else the one in the development tree.
pub open spec fn located(installed: Option<Seq<char>>, development: Option<Seq<char>>) -> Option<
    Seq<char>,
> {
    match installed {
        Some(path) => Some(path),
        None => development,
    }
}

/// The platform identifier of this build.
///
/// Trusted: calls `tauri_utils::platform::target_triple`. The identifier
/// depends on the platform the program was built for, so nothing is claimed
/// of it.
#[verifier::external_body]
fn platform_triple() -> Result<String, tauri_utils::Error> {
    tauri_utils::platform::target_triple()
}

/// Builds the bundled transcoder's file name for the platform `triple`.
pub fn transcoder_file_name(triple: &str) -> (name: String)
    ensures
        name@ == transcoder_file_name_spec(triple@),
{
    let mut name = String::from_str("ffmpeg-");
    name.append(triple);
    name.append(".exe");
    name
}

/// The platform identifier that the file name is built from: the one that
/// was found, or an empty one where none is available.
pub open spec fn platform_qualifier(triple: Option<Seq<char>>) -> Seq<char> {
    match triple {
        Some(t) => t,
        None => Seq::empty(),
    }
}

/// Builds the bundled transcoder's file name from the platform identifier,
/// if there is one, and from an empty identifier otherwise.
pub fn bundled_name_for(triple: Option<String>) -> (name: String)
    ensures
        name@ == transcoder_file_name_spec(platform_qualifier(option_text(triple))),
{
    match triple {
        Some(t) => transcoder_file_name(t.as_str()),
        None => {
            let empty = String::new();
            transcoder_file_name(empty.as_str())
        },
    }
}

/// The bundled transcoder's file name on the platform this program was
/// built for.
pub fn bundled_transcoder_name() -> (name: String)
    ensures
        exists|triple: Option<Seq<char>>|
            name@ == transcoder_file_name_spec(platform_qualifier(triple)),
{
    let triple = match platform_triple() {
        Ok(t) => Some(t),
        Err(_) => None,
    };
    let name = bundled_name_for(triple);
    assert(name@ == transcoder_file_name_spec(platform_qualifier(option_text(triple))));
    name
}

/// The directory of the development tree that holds the bundled binaries.
pub fn development_dir() -> (dir: &'static str)
    ensures
        dir@ == development_dir_spec(),
{
    "src-tauri/bin"
}

/// Chooses the transcoder's location. `installed` is the transcoder's path
/// beside the running executable, `development` its resolved path in the
/// development tree; each is given only where the file exists there.
pub fn locate(installed: Option<String>, development: Option<String>) -> (found: Option<String>)
    ensures
        option_text(found) == located(option_text(installed), option_text(development)),
        installed is Some ==> found == installed,
        installed is None ==> found == development,
{
    match installed {
        Some(path) => Some(path),
        None => development,
    }
}

} // verus!
