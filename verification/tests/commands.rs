use sunrise_launcher::commands::{
    adopt_installed_language, adopt_launcher_directory, console_line, launch_windows,
    windows_game_executable_path,
};
use sunrise_launcher::error::AppError;
use sunrise_launcher::models::Preferences;

fn preferences(directory: &str, language: &str) -> Preferences {
    Preferences {
        install_directory: directory.to_owned(),
        steam_username: "guardian".to_owned(),
        steam_language: language.to_owned(),
        crossover_bottle: "Sunrise".to_owned(),
        crossover_backend: "d3dmetal".to_owned(),
    }
}

#[test]
fn console_responses_become_one_line() {
    assert_eq!(console_line("12345").unwrap(), "12345\n");
    assert_eq!(console_line("").unwrap(), "\n");
    assert_eq!(console_line(&"x".repeat(512)).unwrap().len(), 513);
}

#[test]
fn console_responses_that_span_lines_or_run_long_are_refused() {
    assert_eq!(console_line("a\nb"), Err(AppError::InvalidConsoleResponse));
    assert_eq!(console_line("a\r"), Err(AppError::InvalidConsoleResponse));
    assert_eq!(console_line(&"x".repeat(513)), Err(AppError::InvalidConsoleResponse));
    assert_eq!(console_line(&"é".repeat(257)), Err(AppError::InvalidConsoleResponse));
    assert_eq!(
        AppError::InvalidConsoleResponse.to_message(),
        "The console response is not valid."
    );
}

#[test]
fn a_blank_install_folder_takes_the_launcher_folder() {
    let mut prefs = preferences("  ", "english");
    assert!(adopt_launcher_directory(&mut prefs, "/Games/Sunrise", false));
    assert_eq!(prefs.install_directory, "/Games/Sunrise");
    assert!(!adopt_launcher_directory(&mut prefs, "/Games/Sunrise", true));
}

#[test]
fn a_chosen_install_folder_stays_unless_the_launcher_sits_in_an_installation() {
    let mut prefs = preferences("/Other", "english");
    assert!(!adopt_launcher_directory(&mut prefs, "/Games/Sunrise", false));
    assert_eq!(prefs.install_directory, "/Other");
    assert!(adopt_launcher_directory(&mut prefs, "/Games/Sunrise", true));
    assert_eq!(prefs.install_directory, "/Games/Sunrise");
    assert_eq!(prefs.steam_language, "english");
}

#[test]
fn the_installed_language_is_selected() {
    let mut prefs = preferences("/Games", "english");
    assert!(!adopt_installed_language(&mut prefs, None));
    assert!(!adopt_installed_language(&mut prefs, Some("english")));
    assert!(adopt_installed_language(&mut prefs, Some("french")));
    assert_eq!(prefs.steam_language, "french");
    assert_eq!(prefs.install_directory, "/Games");
}

#[test]
fn windows_launch_needs_the_executable() {
    assert_eq!(launch_windows("C:/Games", false).unwrap_err(), AppError::GameExecutableMissing);
    let command = launch_windows("C:/Games", true).unwrap();
    assert_eq!(command.program, "C:/Games\\destiny2.exe");
    assert!(command.args.is_empty());
    assert_eq!(command.workdir.as_deref(), Some("C:/Games"));
}

#[test]
fn other_errors_read_as_the_interface_shows_them() {
    assert_eq!(AppError::message("boom").to_message(), "boom");
    assert_eq!(
        AppError::io("Could not send input to DepotDownloader", "broken pipe").to_message(),
        "Could not send input to DepotDownloader: broken pipe"
    );
    assert_eq!(
        AppError::OperationRunning.to_message(),
        "Another installer operation is already running."
    );
    assert_eq!(
        AppError::LaunchUnsupported.to_message(),
        "Launching is currently supported on Windows and macOS only. Proton launch configuration is not implemented yet."
    );
}

#[test]
fn windows_paths_join_like_the_standard_library_there() {
    assert_eq!(windows_game_executable_path("C:\\Games"), "C:\\Games\\destiny2.exe");
    assert_eq!(windows_game_executable_path("C:\\Games\\"), "C:\\Games\\destiny2.exe");
    assert_eq!(windows_game_executable_path("D:/Games/"), "D:/Games/destiny2.exe");
    assert_eq!(windows_game_executable_path("C:"), "C:destiny2.exe");
    assert_eq!(windows_game_executable_path("\\\\?\\C:"), "\\\\?\\C:\\destiny2.exe");
    assert_eq!(windows_game_executable_path(""), "destiny2.exe");
}
