//! The decisions the launcher's commands take between reading the user's settings and the host
//! and acting on them.

use vstd::prelude::*;
use vstd::utf8::encode_utf8;

use crate::crossover::ToolCommand;
use crate::error::AppError;
use crate::models::{Preferences, GAME_EXECUTABLE};
use crate::paths::{join_file_windows, joined_windows};
use crate::text::{chars_of, trim, trim_ws, utf8_len_exceeds};

verus! {

/// Longest console response accepted, in UTF-8 bytes.
pub const MAX_CONSOLE_RESPONSE: usize = 512;

/// A console response can be sent when it fits in 512 bytes and stays on one line.
pub open spec fn is_valid_console_response(input: Seq<char>) -> bool {
    encode_utf8(input).len() <= MAX_CONSOLE_RESPONSE && forall|i: int|
        0 <= i < input.len() ==> input[i] != '\r' && input[i] != '\n'
}

/// The line that answers DepotDownloader's prompt with `input`, or why `input` cannot answer it.
pub fn console_line(input: &str) -> (r: Result<String, AppError>)
    ensures
        is_valid_console_response(input@) ==> (r matches Ok(line) && line@ == input@ + seq!['\n']),
        !is_valid_console_response(input@) ==> r == Err::<String, AppError>(
            AppError::InvalidConsoleResponse,
        ),
{
    let chars = chars_of(input);
    if utf8_len_exceeds(&chars, MAX_CONSOLE_RESPONSE) {
        return Err(AppError::InvalidConsoleResponse);
    }
    let n = chars.len();
    let mut i: usize = 0;
    while i < n
        invariant
            n == chars@.len(),
            chars@ == input@,
            i <= n,
            forall|j: int| 0 <= j < i ==> chars@[j] != '\r' && chars@[j] != '\n',
        decreases n - i,
    {
        if chars[i] == '\r' || chars[i] == '\n' {
            return Err(AppError::InvalidConsoleResponse);
        }
        i = i + 1;
    }
    let mut line = input.to_owned();
    line.append("\n");
    proof {
        reveal_strlit("\n");
    }
    Ok(line)
}

/// Points the settings at the launcher's own folder when the launcher sits in an installation
/// or no installation folder is set yet. Returns whether the folder changed, and so whether
/// the settings need saving.
pub fn adopt_launcher_directory(
    preferences: &mut Preferences,
    launcher_directory: &str,
    launcher_is_in_installation: bool,
) -> (changed: bool)
    ensures
        changed == ((launcher_is_in_installation || trim_ws(
            old(preferences).install_directory@,
        ).len() == 0) && old(preferences).install_directory@ != launcher_directory@),
        final(preferences).install_directory@ == (if changed {
            launcher_directory@
        } else {
            old(preferences).install_directory@
        }),
        final(preferences).steam_username == old(preferences).steam_username,
        final(preferences).steam_language == old(preferences).steam_language,
        final(preferences).crossover_bottle == old(preferences).crossover_bottle,
        final(preferences).crossover_backend == old(preferences).crossover_backend,
{
    let detected = launcher_is_in_installation || trim(
        preferences.install_directory.as_str(),
    ).is_empty();
    if !detected {
        return false;
    }
    let launcher = launcher_directory.to_owned();
    if preferences.install_directory == launcher {
        return false;
    }
    preferences.install_directory = launcher;
    true
}

/// Makes the selected language that of the installation, when the installation records one,
/// since Repair and Install use the selected language. Returns whether the language changed.
pub fn adopt_installed_language(preferences: &mut Preferences, installed: Option<&str>) -> (changed:
    bool)
    ensures
        changed == (installed matches Some(l) && l@ != old(preferences).steam_language@),
        final(preferences).steam_language@ == (match installed {
            Some(l) => l@,
            None => old(preferences).steam_language@,
        }),
        final(preferences).install_directory == old(preferences).install_directory,
        final(preferences).steam_username == old(preferences).steam_username,
        final(preferences).crossover_bottle == old(preferences).crossover_bottle,
        final(preferences).crossover_backend == old(preferences).crossover_backend,
{
    match installed {
        None => false,
        Some(language) => {
            let language = language.to_owned();
            if preferences.steam_language == language {
                false
            } else {
                preferences.steam_language = language;
                true
            }
        },
    }
}

/// The game's executable inside the installation folder `root` on Windows.
pub fn windows_game_executable_path(root: &str) -> (r: String)
    ensures
        r@ == joined_windows(root@, GAME_EXECUTABLE@),
{
    join_file_windows(root, GAME_EXECUTABLE)
}

/// Decides how to start the game on Windows from the installation folder `root`;
/// `executable_exists` tells whether [`windows_game_executable_path`] of `root` is a file.
pub fn launch_windows(root: &str, executable_exists: bool) -> (r: Result<ToolCommand, AppError>)
    ensures
        !executable_exists ==> r == Err::<ToolCommand, AppError>(AppError::GameExecutableMissing),
        executable_exists ==> (r matches Ok(c) && c.program@ == joined_windows(root@, GAME_EXECUTABLE@)
            && c.args@.len() == 0 && c.workdir.deep_view() == Some(root@)),
{
    if !executable_exists {
        return Err(AppError::GameExecutableMissing);
    }
    Ok(
        ToolCommand {
            program: windows_game_executable_path(root),
            args: Vec::new(),
            workdir: Some(root.to_owned()),
        },
    )
}

} // verus!
