//! Decisions of the command-line session: which build is processed, where
//! a download is saved, what is shown of a hash, and whether to wait for
//! the operator before the program ends.

use crate::error::PatcherError;
use vstd::prelude::*;

verus! {

/// The directory that builds go to when the operator names none.
pub const DEFAULT_OUTPUT_DIR: &'static str = ".versions";

/// The build to process: the first that the release offers. A release
/// without builds is refused as invalid build information.
pub fn select_build<T>(builds: &Vec<T>) -> (r: Result<&T, PatcherError>)
    ensures
        match r {
            Ok(build) => builds@.len() > 0 && *build == builds@[0],
            Err(e) => builds@.len() == 0 && e is InvalidBuildInfo && e.detail_spec()
                == "No builds found"@,
        },
{
    if builds.len() == 0 {
        Err(PatcherError::InvalidBuildInfo("No builds found".to_owned()))
    } else {
        Ok(&builds[0])
    }
}

/// Where a build is saved when it is only downloaded: a file named by the
/// version, in the output directory.
pub fn download_target(output_dir: &str, version: &str) -> (r: String)
    ensures
        r@ == output_dir@ + "/"@ + version@ + ".exe"@,
{
    output_dir.to_owned().concat("/").concat(version).concat(".exe")
}

/// The part of a hash that is shown to the operator: its first 32
/// characters, or all of it where it has fewer.
pub fn hash_preview(hash: &str) -> (r: String)
    ensures
        r@ == if hash@.len() <= 32 {
            hash@
        } else {
            hash@.subrange(0, 32)
        },
{
    if hash.unicode_len() <= 32 {
        hash.to_owned()
    } else {
        hash.substring_char(0, 32).to_owned()
    }
}

/// Whether the program waits for a key before it ends, so that its output
/// stays readable in a console window that closes with it. It does on
/// Windows where the environment shows no sign of a terminal or a shell:
/// none of `TERM`, `SHELL`, `WT_SESSION` and `PROMPT` is set.
pub fn should_wait_before_exit(
    windows: bool,
    term_set: bool,
    shell_set: bool,
    wt_session_set: bool,
    prompt_set: bool,
) -> (r: bool)
    ensures
        r == (windows && !term_set && !shell_set && !wt_session_set && !prompt_set),
{
    windows && !term_set && !shell_set && !wt_session_set && !prompt_set
}

} // verus!
