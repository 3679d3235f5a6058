use std::path::PathBuf;

use sunrise_launcher::crossover::{
    app_candidates, bottle_conf_path, bottle_folder, bottles_dir, check_bottle_creation,
    create_bottle_args, game_executable_path, launch, launch_args, parse_bundle_version,
    parse_graphics_backend, prepare, resolve_backend, sanitize_bottle_name, status, tool_path,
    CrossOverStatus, HostProbe, HostReport, PrepareStep, CROSSOVER_NOT_FOUND, DEFAULT_BACKEND,
    DEFAULT_BOTTLE,
};
use sunrise_launcher::error::AppError;
use sunrise_launcher::models::Preferences;
use sunrise_launcher::paths::join_path;

#[test]
fn bottle_names_are_single_folder_names() {
    assert_eq!(sanitize_bottle_name("  ").unwrap(), DEFAULT_BOTTLE);
    assert_eq!(
        sanitize_bottle_name(" Sunrise Test ").unwrap(),
        "Sunrise Test"
    );
    assert!(sanitize_bottle_name("../escape").is_err());
    assert!(sanitize_bottle_name("a/b").is_err());
    assert!(sanitize_bottle_name("a:b").is_err());
    assert!(sanitize_bottle_name(".hidden").is_err());
    assert!(sanitize_bottle_name(&"x".repeat(65)).is_err());
}

#[test]
fn unknown_backends_fall_back_to_the_default() {
    assert_eq!(resolve_backend("DXMT"), "dxmt");
    assert_eq!(resolve_backend(" d3dmetal "), "d3dmetal");
    assert_eq!(resolve_backend("dxvk"), DEFAULT_BACKEND);
    assert_eq!(resolve_backend(""), DEFAULT_BACKEND);
}

#[test]
fn reads_the_bundle_version_from_plist_xml() {
    let plist = r#"<?xml version="1.0" encoding="UTF-8"?>
<plist version="1.0"><dict>
<key>CFBundleName</key><string>CrossOver</string>
<key>CFBundleShortVersionString</key>
<string>26.3</string>
<key>CFBundleVersion</key><string>26.3.0.40010</string>
</dict></plist>"#;
    assert_eq!(parse_bundle_version(plist).as_deref(), Some("26.3"));
    assert_eq!(parse_bundle_version("<plist/>"), None);
}

#[test]
fn reads_the_graphics_backend_from_the_bottle_config() {
    let conf = "[Bottle]\n\"Template\" = \"win10_64\"\n\n[EnvironmentVariables]\n;;\"PROMPT\" = \"$p$g\"\n\"CX_GRAPHICS_BACKEND\" = \"d3dmetal\"\n\"WINEMSYNC\" = \"1\"\n";
    assert_eq!(parse_graphics_backend(conf).as_deref(), Some("d3dmetal"));
    assert_eq!(parse_graphics_backend("[Bottle]\n"), None);
    assert_eq!(
        parse_graphics_backend(";;\"CX_GRAPHICS_BACKEND\" = \"dxvk\"\n"),
        None
    );
}

#[test]
fn bottle_creation_carries_the_backend_into_the_bottle() {
    let args = create_bottle_args("Sunrise", "dxmt");
    assert_eq!(args[..3], ["--create", "--bottle", "Sunrise"]);
    assert!(args.contains(&"win10_64".to_owned()));
    assert_eq!(
        args.last().map(String::as_str),
        Some("EnvironmentVariables:CX_GRAPHICS_BACKEND=dxmt")
    );
}

#[test]
fn launch_arguments_pass_a_native_path_and_do_not_wait() {
    let root = "/Users/guardian/Games/Sunrise";
    let args = launch_args("Sunrise", root, &join_path(root, "destiny2.exe"));
    assert_eq!(
        args,
        [
            "--bottle",
            "Sunrise",
            "--no-update",
            "--no-wait",
            "--workdir",
            "/Users/guardian/Games/Sunrise",
            "/Users/guardian/Games/Sunrise/destiny2.exe"
        ]
    );
    // --cx-app would make CrossOver look inside the bottle's C: drive instead.
    assert!(!args.iter().any(|argument| argument == "--cx-app"));
}

#[test]
fn crossover_paths_follow_the_home_folder() {
    let home = "/Users/guardian";
    assert_eq!(
        PathBuf::from(&app_candidates(home)[1]),
        PathBuf::from("/Users/guardian/Applications/CrossOver.app")
    );
    assert_eq!(
        PathBuf::from(bottles_dir(home)),
        PathBuf::from("/Users/guardian/Library/Application Support/CrossOver/Bottles")
    );
}

fn preferences(bottle: &str, backend: &str) -> Preferences {
    Preferences {
        install_directory: "/Users/guardian/Games/Sunrise".to_owned(),
        steam_username: "guardian".to_owned(),
        steam_language: "english".to_owned(),
        crossover_bottle: bottle.to_owned(),
        crossover_backend: backend.to_owned(),
    }
}

fn found(bottle_exists: bool, conf: Option<&str>, plist: Option<&str>) -> HostProbe {
    HostProbe::Found(HostReport {
        app_path: "/Applications/CrossOver.app".to_owned(),
        home: "/Users/guardian".to_owned(),
        bottle_exists,
        bottle_conf: conf.map(str::to_owned),
        bundle_plist: plist.map(str::to_owned),
    })
}

#[test]
fn the_first_candidate_is_the_system_applications_folder() {
    assert_eq!(app_candidates("/Users/guardian")[0], "/Applications/CrossOver.app");
    assert_eq!(app_candidates("/Users/guardian/")[1], "/Users/guardian/Applications/CrossOver.app");
}

#[test]
fn bottle_name_limits_count_utf8_bytes() {
    assert_eq!(sanitize_bottle_name(&"x".repeat(64)).unwrap(), "x".repeat(64));
    assert_eq!(sanitize_bottle_name(&"é".repeat(32)).unwrap(), "é".repeat(32));
    assert_eq!(sanitize_bottle_name(&"é".repeat(33)), Err(AppError::BottleNameTooLong));
    assert_eq!(sanitize_bottle_name(&format!("  {}\t", "x".repeat(64))).unwrap(), "x".repeat(64));
}

#[test]
fn bottle_name_errors_name_their_cause() {
    assert_eq!(sanitize_bottle_name(".hidden"), Err(AppError::BottleNameInvalid));
    assert_eq!(sanitize_bottle_name("a\\b"), Err(AppError::BottleNameInvalid));
    assert_eq!(sanitize_bottle_name("a\0b"), Err(AppError::BottleNameInvalid));
    assert_eq!(sanitize_bottle_name("\u{3000}Game\u{a0}").unwrap(), "Game");
    assert_eq!(
        AppError::BottleNameTooLong.to_message(),
        "The bottle name is too long; use at most 64 characters."
    );
    assert_eq!(
        AppError::BottleNameInvalid.to_message(),
        "The bottle name cannot start with a dot or contain slashes or colons."
    );
}

#[test]
fn accepted_bottle_names_come_back_unchanged() {
    for name in ["  Sunrise Test ", "", "Game", " x "] {
        let once = sanitize_bottle_name(name).unwrap();
        assert_eq!(sanitize_bottle_name(&once).unwrap(), once);
    }
}

#[test]
fn backends_are_compared_without_ascii_case() {
    assert_eq!(resolve_backend("D3DMetal"), "d3dmetal");
    assert_eq!(resolve_backend("\tdXmT\n"), "dxmt");
    assert_eq!(resolve_backend("dxm"), "d3dmetal");
    assert_eq!(resolve_backend(resolve_backend("DXMT")), "dxmt");
}

#[test]
fn bundle_version_needs_a_string_after_the_key() {
    let key = "<key>CFBundleShortVersionString</key>";
    assert_eq!(parse_bundle_version(&format!("{key}<string>  </string>")), None);
    assert_eq!(parse_bundle_version(&format!("{key}<string> 26.1 ")), None);
    assert_eq!(parse_bundle_version(&format!("{key}")), None);
    assert_eq!(parse_bundle_version(&format!("<string>1</string>{key}<string> 25 </string>")).as_deref(), Some("25"));
}

#[test]
fn graphics_backend_skips_lines_without_a_value() {
    let conf = "\"CX_GRAPHICS_BACKEND\" = \"\"\r\n CX_GRAPHICS_BACKEND=dxmt\r\n";
    assert_eq!(parse_graphics_backend(conf).as_deref(), Some("dxmt"));
    assert_eq!(parse_graphics_backend("\"CX_GRAPHICS_BACKEND\" = \"dxmt\""
    ).as_deref(), Some("dxmt"));
    assert_eq!(parse_graphics_backend("X = 1\nCX_GRAPHICS_BACKEND = a=b\n").as_deref(), Some("a=b"));
    assert_eq!(parse_graphics_backend(""), None);
}

#[test]
fn the_recorded_backend_reads_back() {
    for backend in ["d3dmetal", "dxmt"] {
        let args = create_bottle_args("Sunrise", backend);
        let param = args.last().unwrap();
        let value = param.strip_prefix("EnvironmentVariables:CX_GRAPHICS_BACKEND=").unwrap();
        let line = format!("\"CX_GRAPHICS_BACKEND\" = \"{value}\"\n");
        assert_eq!(parse_graphics_backend(&line).as_deref(), Some(backend));
    }
}

#[test]
fn status_off_macos_is_unsupported() {
    let s = status(&preferences("../bad", "dxmt"), &HostProbe::Unsupported);
    assert!(!s.supported && !s.installed && !s.ready);
    assert_eq!(s.bottle_name, DEFAULT_BOTTLE);
    assert_eq!(s.error, None);
    let u = CrossOverStatus::unsupported();
    assert_eq!(u.bottle_path, "");
    assert_eq!(u.app_path, None);
}

#[test]
fn status_reports_a_refused_bottle_name() {
    let s = status(&preferences("a/b", ""), &found(true, None, None));
    assert!(s.supported && !s.installed && !s.ready);
    assert_eq!(s.bottle_name, DEFAULT_BOTTLE);
    assert_eq!(
        s.error.as_deref(),
        Some("The bottle name cannot start with a dot or contain slashes or colons.")
    );
}

#[test]
fn status_reports_a_missing_crossover() {
    let s = status(&preferences("Game", ""), &HostProbe::NotFound);
    assert!(s.supported && !s.installed && !s.ready);
    assert_eq!(s.bottle_name, "Game");
    assert_eq!(s.error.as_deref(), Some(CROSSOVER_NOT_FOUND));
}

#[test]
fn status_of_an_existing_bottle_is_ready() {
    let plist = "<key>CFBundleShortVersionString</key><string>26.3</string>";
    let conf = "\"CX_GRAPHICS_BACKEND\" = \"dxmt\"\n";
    let s = status(&preferences(" Game ", ""), &found(true, Some(conf), Some(plist)));
    assert!(s.supported && s.installed && s.ready && s.bottle_exists);
    assert_eq!(s.app_path.as_deref(), Some("/Applications/CrossOver.app"));
    assert_eq!(s.version.as_deref(), Some("26.3"));
    assert_eq!(s.bottle_name, "Game");
    assert_eq!(s.bottle_path, "/Users/guardian/Library/Application Support/CrossOver/Bottles/Game");
    assert_eq!(s.graphics_backend.as_deref(), Some("dxmt"));
    assert_eq!(s.error, None);
}

#[test]
fn status_of_a_missing_bottle_is_not_ready() {
    let conf = "\"CX_GRAPHICS_BACKEND\" = \"dxmt\"\n";
    let s = status(&preferences("", ""), &found(false, Some(conf), None));
    assert!(s.installed && !s.ready && !s.bottle_exists);
    assert_eq!(s.graphics_backend, None);
    assert_eq!(s.version, None);
}

#[test]
fn bottle_paths_are_built_from_the_home_folder() {
    let folder = bottle_folder("/Users/guardian", "Sunrise");
    assert_eq!(folder, "/Users/guardian/Library/Application Support/CrossOver/Bottles/Sunrise");
    assert_eq!(bottle_conf_path(&folder), format!("{folder}/cxbottle.conf"));
    assert_eq!(
        tool_path("/Applications/CrossOver.app", "wine"),
        "/Applications/CrossOver.app/Contents/SharedSupport/CrossOver/bin/wine"
    );
    assert_eq!(game_executable_path("/Games/Sunrise/"), "/Games/Sunrise/destiny2.exe");
}

#[test]
fn prepare_leaves_an_existing_bottle_alone() {
    match prepare(&preferences("Game", "dxmt"), &found(true, None, None)) {
        Ok(PrepareStep::Ready(s)) => assert!(s.ready),
        other => panic!("unexpected {other:?}"),
    }
}

#[test]
fn prepare_creates_a_missing_bottle_with_the_resolved_backend() {
    match prepare(&preferences("Game", "DXVK"), &found(false, None, None)) {
        Ok(PrepareStep::Create(command)) => {
            assert_eq!(
                command.program,
                "/Applications/CrossOver.app/Contents/SharedSupport/CrossOver/bin/cxbottle"
            );
            assert_eq!(command.args, create_bottle_args("Game", "d3dmetal"));
            assert_eq!(command.workdir, None);
        }
        other => panic!("unexpected {other:?}"),
    }
}

#[test]
fn prepare_fails_where_status_has_an_error() {
    assert_eq!(
        prepare(&preferences("Game", ""), &HostProbe::Unsupported).unwrap_err(),
        AppError::CrossOverUnsupported
    );
    assert_eq!(
        prepare(&preferences("Game", ""), &HostProbe::NotFound).unwrap_err(),
        AppError::Message(CROSSOVER_NOT_FOUND.to_owned())
    );
    assert_eq!(
        prepare(&preferences(".x", ""), &found(false, None, None)).unwrap_err().to_message(),
        "The bottle name cannot start with a dot or contain slashes or colons."
    );
}

#[test]
fn a_failed_bottle_creation_carries_the_tool_output() {
    assert_eq!(check_bottle_creation(true, "noise"), Ok(()));
    let error = check_bottle_creation(false, "  disk full\n").unwrap_err();
    assert_eq!(error, AppError::BottleCreationFailed("disk full".to_owned()));
    assert_eq!(error.to_message(), "CrossOver could not create the bottle: disk full");
}

#[test]
fn launch_starts_wine_in_the_bottle() {
    let root = "/Users/guardian/Games/Sunrise";
    let command = launch(root, &preferences("Sunrise", ""), &found(true, None, None), true).unwrap();
    assert_eq!(
        command.program,
        "/Applications/CrossOver.app/Contents/SharedSupport/CrossOver/bin/wine"
    );
    assert_eq!(command.args, launch_args("Sunrise", root, &game_executable_path(root)));
    assert_eq!(command.workdir.as_deref(), Some(root));
}

#[test]
fn launch_refuses_what_is_not_in_place() {
    let root = "/Games/Sunrise";
    let prefs = preferences("Sunrise", "");
    assert_eq!(launch(root, &prefs, &found(false, None, None), true).unwrap_err(), AppError::BottleNotPrepared);
    assert_eq!(launch(root, &prefs, &found(true, None, None), false).unwrap_err(), AppError::GameExecutableMissing);
    assert_eq!(launch(root, &prefs, &HostProbe::Unsupported, true).unwrap_err(), AppError::CrossOverUnsupported);
    assert_eq!(
        AppError::BottleNotPrepared.to_message(),
        "The CrossOver bottle has not been prepared yet. Open Settings and choose Prepare bottle."
    );
    assert_eq!(
        AppError::GameExecutableMissing.to_message(),
        "destiny2.exe was not found in the installation folder."
    );
    assert_eq!(
        AppError::CrossOverUnsupported.to_message(),
        "CrossOver launching is only available on macOS."
    );
}
