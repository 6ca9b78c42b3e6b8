use program_manager::model::{LaunchPlan, LaunchResult, Platform, ProgramItem};
use program_manager::resolver::{get_executable_extensions, get_platform, resolve_launch};

fn item(path: &str, working_dir: &str) -> ProgramItem {
    ProgramItem {
        id: "item-3".to_string(),
        name: "Resolved".to_string(),
        path: path.to_string(),
        icon: "icon.png".to_string(),
        working_dir: working_dir.to_string(),
        shortcut_key: "Ctrl+1".to_string(),
        launch_group: None,
    }
}

#[test]
fn url_paths_delegate_to_url_open_on_every_platform() {
    for platform in [
        Platform::Windows,
        Platform::MacOs,
        Platform::Linux,
        Platform::Unknown,
    ] {
        for url in ["http://example.com", "https://example.com/page?q=1"] {
            let plan = resolve_launch(platform, &item(url, "/ignored"));
            match plan {
                LaunchPlan::OpenUrl(u) => assert_eq!(u, url),
                other => panic!("expected a URL plan, got {:?}", other),
            }
        }
    }
}

#[test]
fn non_url_http_like_paths_are_not_urls() {
    let plan = resolve_launch(Platform::Linux, &item("/opt/http-server", ""));
    match plan {
        LaunchPlan::Spawn(cmd) => assert_eq!(cmd.program, "/opt/http-server"),
        other => panic!("expected a spawn plan, got {:?}", other),
    }
}

#[test]
fn windows_plain_path_goes_through_shell_open() {
    let plan = resolve_launch(
        Platform::Windows,
        &item("C:\\Program Files\\app.exe", "C:\\Work"),
    );
    match plan {
        LaunchPlan::Spawn(cmd) => {
            assert_eq!(cmd.program, "cmd");
            assert_eq!(
                cmd.args,
                vec![
                    "/C".to_string(),
                    "start".to_string(),
                    String::new(),
                    "C:\\Program Files\\app.exe".to_string()
                ]
            );
            assert_eq!(cmd.working_dir, Some("C:\\Work".to_string()));
        }
        other => panic!("expected a spawn plan, got {:?}", other),
    }
}

#[test]
fn macos_bundle_opens_through_os() {
    let plan = resolve_launch(Platform::MacOs, &item("/Applications/Safari.app", "/tmp"));
    match plan {
        LaunchPlan::Spawn(cmd) => {
            assert_eq!(cmd.program, "open");
            assert_eq!(
                cmd.args,
                vec!["-a".to_string(), "/Applications/Safari.app".to_string()]
            );
            assert_eq!(cmd.working_dir, None);
        }
        other => panic!("expected a spawn plan, got {:?}", other),
    }
}

#[test]
fn macos_plain_path_spawns_directly() {
    let plan = resolve_launch(Platform::MacOs, &item("/usr/local/bin/tool", "/srv"));
    match plan {
        LaunchPlan::Spawn(cmd) => {
            assert_eq!(cmd.program, "/usr/local/bin/tool");
            assert!(cmd.args.is_empty());
            assert_eq!(cmd.working_dir, Some("/srv".to_string()));
        }
        other => panic!("expected a spawn plan, got {:?}", other),
    }
}

#[test]
fn linux_plain_path_spawns_directly() {
    let plan = resolve_launch(Platform::Linux, &item("/usr/bin/gedit", ""));
    match plan {
        LaunchPlan::Spawn(cmd) => {
            assert_eq!(cmd.program, "/usr/bin/gedit");
            assert!(cmd.args.is_empty());
            assert_eq!(cmd.working_dir, None);
        }
        other => panic!("expected a spawn plan, got {:?}", other),
    }
}

#[test]
fn unknown_platform_fails_the_single_attempt() {
    let plan = resolve_launch(Platform::Unknown, &item("/usr/bin/gedit", ""));
    match plan {
        LaunchPlan::Fail(msg) => assert_eq!(msg, "Unsupported platform"),
        other => panic!("expected a failure, got {:?}", other),
    }
}

#[test]
fn executable_extensions_per_platform() {
    assert_eq!(
        get_executable_extensions(Platform::Windows),
        vec!["exe", "bat", "cmd", "msi", "lnk"]
    );
    assert_eq!(get_executable_extensions(Platform::MacOs), vec!["app", "sh"]);
    assert_eq!(
        get_executable_extensions(Platform::Linux),
        vec!["desktop", "sh", "AppImage"]
    );
    assert_eq!(get_executable_extensions(Platform::Unknown), vec!["*"]);
}

#[test]
fn platform_names() {
    assert_eq!(get_platform(Platform::Windows), "win32");
    assert_eq!(get_platform(Platform::MacOs), "darwin");
    assert_eq!(get_platform(Platform::Linux), "linux");
    assert_eq!(get_platform(Platform::Unknown), "unknown");
}

#[test]
fn launch_result_constructors() {
    let ok = LaunchResult::succeeded();
    assert!(ok.success);
    assert_eq!(ok.error, None);

    let failed = LaunchResult::failed("no such file".to_string());
    assert!(!failed.success);
    assert_eq!(failed.error, Some("no such file".to_string()));

    let from_err = LaunchResult::from_outcome(Err("permission denied".to_string()));
    assert!(!from_err.success);
    assert_eq!(from_err.error, Some("permission denied".to_string()));

    let from_ok = LaunchResult::from_outcome(Ok(()));
    assert!(from_ok.success);
    assert_eq!(from_ok.error, None);
}
