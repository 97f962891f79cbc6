use neuro_kar_manager::install::{
    archive_name, bundled_rclone_path, download_url, find_binary_entry, get_app_data_dir,
    get_bin_dir, get_rclone_binary_name, resolve_rclone_path, DataDirEnv, DirPath, ExecutableDir,
    Platform,
};
use neuro_kar_manager::logs::LogManager;

fn path(root: &str, parts: &[&str]) -> DirPath {
    DirPath { root: root.to_string(), parts: parts.iter().map(|p| p.to_string()).collect() }
}

fn env() -> DataDirEnv {
    DataDirEnv {
        xdg_data_home: None,
        home: None,
        local_app_data: None,
        user_profile: None,
        executable_dir: ExecutableDir::Unknown,
    }
}

#[test]
fn binary_name_depends_on_platform_family() {
    assert_eq!(get_rclone_binary_name(false), "rclone");
    assert_eq!(get_rclone_binary_name(true), "rclone.exe");
}

#[test]
fn linux_uses_xdg_then_home() {
    let mut e = env();
    e.home = Some("/home/u".to_string());
    assert_eq!(
        get_app_data_dir(Platform::Linux, &e),
        Ok(path("/home/u", &[".local", "share", "unofficial-neuro-kar-manager"]))
    );
    e.xdg_data_home = Some("/xdg".to_string());
    assert_eq!(
        get_app_data_dir(Platform::Linux, &e),
        Ok(path("/xdg", &["unofficial-neuro-kar-manager"]))
    );
    assert_eq!(
        get_app_data_dir(Platform::Linux, &env()),
        Err("Cannot determine user data directory".to_string())
    );
}

#[test]
fn windows_uses_local_app_data_then_profile() {
    let mut e = env();
    e.home = Some("/ignored".to_string());
    assert_eq!(
        get_app_data_dir(Platform::Windows, &e),
        Err("Cannot determine AppData directory".to_string())
    );
    e.user_profile = Some("C:\\Users\\u".to_string());
    assert_eq!(
        get_app_data_dir(Platform::Windows, &e),
        Ok(path("C:\\Users\\u", &["AppData", "Local", "unofficial-neuro-kar-manager"]))
    );
    e.local_app_data = Some("D:\\Local".to_string());
    assert_eq!(
        get_app_data_dir(Platform::Windows, &e),
        Ok(path("D:\\Local", &["unofficial-neuro-kar-manager"]))
    );
}

#[test]
fn macos_uses_application_support() {
    let mut e = env();
    e.xdg_data_home = Some("/ignored".to_string());
    assert_eq!(
        get_app_data_dir(Platform::MacOs, &e),
        Err("Cannot determine home directory".to_string())
    );
    e.home = Some("/Users/u".to_string());
    assert_eq!(
        get_app_data_dir(Platform::MacOs, &e),
        Ok(path("/Users/u", &["Library", "Application Support", "unofficial-neuro-kar-manager"]))
    );
}

#[test]
fn other_platforms_use_the_executable_directory() {
    let mut e = env();
    e.home = Some("/ignored".to_string());
    assert_eq!(
        get_app_data_dir(Platform::Other, &e),
        Err("Cannot determine executable path".to_string())
    );
    e.executable_dir = ExecutableDir::NoParent;
    assert_eq!(
        get_app_data_dir(Platform::Other, &e),
        Err("Cannot determine executable parent directory".to_string())
    );
    e.executable_dir = ExecutableDir::Parent("/opt/app".to_string());
    assert_eq!(get_app_data_dir(Platform::Other, &e), Ok(path("/opt/app", &[])));
}

#[test]
fn bin_dir_is_below_the_data_dir() {
    assert_eq!(
        get_bin_dir(Ok(path("/xdg", &["unofficial-neuro-kar-manager"]))),
        Ok(path("/xdg", &["unofficial-neuro-kar-manager", "bin"]))
    );
    assert_eq!(get_bin_dir(Err("no".to_string())), Err("no".to_string()));
}

#[test]
fn log_path_is_in_the_local_data_dir() {
    assert_eq!(
        LogManager::get_log_path(Ok("/data/app".to_string())),
        Ok(path("/data/app", &["rclone.log"]))
    );
    assert_eq!(
        LogManager::get_log_path(Err("unknown path".to_string())),
        Err("Failed to get app data dir: unknown path".to_string())
    );
}

#[test]
fn installed_binary_is_preferred() {
    let bundled = bundled_rclone_path(false, Ok(path("/d", &["bin"])));
    assert_eq!(bundled, Some(path("/d", &["bin", "rclone"])));
    assert_eq!(
        resolve_rclone_path(false, bundled, true, true),
        Some(path("/d", &["bin", "rclone"]))
    );
    assert_eq!(
        bundled_rclone_path(true, Ok(path("C:\\d", &["bin"]))),
        Some(path("C:\\d", &["bin", "rclone.exe"]))
    );
    assert_eq!(bundled_rclone_path(false, Err("no".to_string())), None);
}

#[test]
fn search_path_is_the_fallback() {
    let bundled = Some(path("/d", &["bin", "rclone"]));
    assert_eq!(resolve_rclone_path(false, bundled, false, true), Some(path("rclone", &[])));
    assert_eq!(resolve_rclone_path(true, None, true, true), Some(path("rclone.exe", &[])));
    assert_eq!(resolve_rclone_path(false, None, false, false), None);
    assert_eq!(resolve_rclone_path(false, Some(path("/d", &[])), false, false), None);
}

#[test]
fn download_url_names_the_release_system() {
    for (os, arch, system, machine) in [
        ("windows", "x86_64", "windows", "amd64"),
        ("windows", "x86", "windows", "386"),
        ("linux", "x86_64", "linux", "amd64"),
        ("linux", "aarch64", "linux", "arm64"),
        ("macos", "x86_64", "osx", "amd64"),
        ("macos", "aarch64", "osx", "arm64"),
    ] {
        assert_eq!(
            download_url(os, arch),
            Ok(format!(
                "https://downloads.rclone.org/v1.72.1/rclone-v1.72.1-{}-{}.zip",
                system, machine
            ))
        );
    }
}

#[test]
fn unsupported_system_is_refused() {
    assert_eq!(
        download_url("freebsd", "x86_64"),
        Err("Unsupported system: freebsd x86_64".to_string())
    );
    assert_eq!(download_url("linux", "x86"), Err("Unsupported system: linux x86".to_string()));
    assert_eq!(download_url("macos", "x86"), Err("Unsupported system: macos x86".to_string()));
    assert_eq!(download_url("", ""), Err("Unsupported system:  ".to_string()));
}

#[test]
fn archive_is_named_after_the_release() {
    assert_eq!(archive_name(), "rclone_temp_1.72.1.zip");
}

#[test]
fn binary_is_the_first_entry_with_its_name_at_the_end() {
    let names = vec![
        "rclone-v1.72.1-linux-amd64/".to_string(),
        "rclone-v1.72.1-linux-amd64/README.txt".to_string(),
        "rclone-v1.72.1-linux-amd64/rclone.1".to_string(),
        "rclone-v1.72.1-linux-amd64/rclone".to_string(),
        "other/rclone".to_string(),
    ];
    assert_eq!(find_binary_entry(&names, "rclone"), Some(3));
    assert_eq!(find_binary_entry(&names, "rclone.exe"), None);
    assert_eq!(find_binary_entry(&names, ""), Some(0));
    assert_eq!(find_binary_entry(&Vec::new(), "rclone"), None);
    assert_eq!(find_binary_entry(&vec!["clone".to_string()], "rclone"), None);
}

#[test]
fn android_engine_lies_in_the_noted_directory() {
    assert_eq!(
        neuro_kar_manager::install::android_engine_path(" /data/app/x/lib/arm64\n"),
        "/data/app/x/lib/arm64/librclone-aarch64-linux-android.so"
    );
    assert_eq!(
        neuro_kar_manager::install::android_engine_path(""),
        "/librclone-aarch64-linux-android.so"
    );
}
