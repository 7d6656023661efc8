use verge_dirs::{DirsError, Resolver};

const VERSION: &str = "2.0.0";
const IDENTITY: &str = "clash-verge";

fn installed(home: &str) -> Resolver {
    Resolver::new(
        VERSION.to_string(),
        IDENTITY.to_string(),
        Some(home.to_string()),
        None,
        false,
    )
}

fn portable(exe_dir: &str) -> Resolver {
    let mut r = Resolver::new(
        VERSION.to_string(),
        IDENTITY.to_string(),
        None,
        Some(exe_dir.to_string()),
        true,
    );
    r.init_portable_flag(true).unwrap();
    r
}

#[test]
fn installed_home_example() {
    let r = installed("/home/alice");
    assert_eq!(r.app_home_dir().unwrap(), "/home/alice/.config/clash-verge");
    assert_eq!(
        r.profiles_path().unwrap(),
        "/home/alice/.config/clash-verge/profiles.yaml"
    );
}

#[test]
fn portable_home_example() {
    let r = portable("/opt/app/bin");
    assert!(r.get_portable_flag());
    assert_eq!(r.app_home_dir().unwrap(), "/opt/app/bin/.config/clash-verge");
}

#[test]
fn installed_home_ignores_exe_dir() {
    let mut r = installed("/home/alice");
    r.exe_dir = Some("/somewhere/else".to_string());
    assert_eq!(r.app_home_dir().unwrap(), "/home/alice/.config/clash-verge");
}

#[test]
fn portable_home_ignores_user_home() {
    let mut r = portable("/opt/app/bin");
    r.home_dir = Some("/home/alice".to_string());
    assert_eq!(r.app_home_dir().unwrap(), "/opt/app/bin/.config/clash-verge");
}

#[test]
fn modes_never_collide_for_distinct_roots() {
    let a = installed("/home/alice");
    let b = portable("/opt/app/bin");
    assert_ne!(a.app_home_dir().unwrap(), b.app_home_dir().unwrap());
}

#[test]
fn modes_coincide_when_roots_coincide() {
    let a = installed("/same/root");
    let b = portable("/same/root");
    assert_eq!(a.app_home_dir().unwrap(), b.app_home_dir().unwrap());
}

#[test]
fn home_dir_undeterminable_fails_not_found() {
    let r = Resolver::new(
        VERSION.to_string(),
        IDENTITY.to_string(),
        None,
        None,
        false,
    );
    assert_eq!(r.app_home_dir().unwrap_err(), DirsError::NotFound);
    assert_eq!(r.clash_path().unwrap_err(), DirsError::NotFound);
    assert_eq!(r.app_logs_dir().unwrap_err(), DirsError::NotFound);
}

#[test]
fn portable_exe_undeterminable_fails_not_found() {
    let mut r = Resolver::new(
        VERSION.to_string(),
        IDENTITY.to_string(),
        Some("/home/alice".to_string()),
        None,
        true,
    );
    r.portable = Some(true);
    assert_eq!(r.app_home_dir().unwrap_err(), DirsError::NotFound);
}

#[test]
fn fixed_leaf_names() {
    let r = installed("/home/alice");
    let home = "/home/alice/.config/clash-verge";
    assert_eq!(r.clash_path().unwrap(), format!("{}/config.yaml", home));
    assert_eq!(r.verge_path().unwrap(), format!("{}/verge.yaml", home));
    assert_eq!(r.profiles_path().unwrap(), format!("{}/profiles.yaml", home));
    assert_eq!(r.storage_path().unwrap(), format!("{}/storage", home));
    assert_eq!(r.app_profiles_dir().unwrap(), format!("{}/profiles", home));
    assert_eq!(r.app_logs_dir().unwrap(), format!("{}/logs", home));
}

#[test]
fn resource_dir_starts_absent() {
    let r = installed("/home/alice");
    assert!(r.get_resource_dir().is_none());
}

#[test]
fn resource_accessors_fail_not_found_while_unset() {
    let r = installed("/home/alice");
    assert_eq!(r.clash_pid_path().unwrap_err(), DirsError::NotFound);
    assert_eq!(r.service_path().unwrap_err(), DirsError::NotFound);
    assert_eq!(r.app_res_dir().unwrap_err(), DirsError::NotFound);
}

#[test]
fn set_resource_dir_twice_same_input_same_result() {
    let mut r = installed("/home/alice");
    r.set_resource_dir("/usr/lib/app/resources".to_string());
    let first = r.get_resource_dir();
    r.set_resource_dir("/usr/lib/app/resources".to_string());
    assert_eq!(r.get_resource_dir(), first);
    assert_eq!(r.get_resource_dir().unwrap(), "/usr/lib/app/resources");
}

#[test]
fn app_resources_dir_resolves_and_caches() {
    let mut r = installed("/home/alice");
    let res = r.app_resources_dir(Some("/usr/lib/app".to_string())).unwrap();
    assert_eq!(res, "/usr/lib/app/resources");
    assert_eq!(r.get_resource_dir().unwrap(), res);
    assert_eq!(
        r.clash_pid_path().unwrap(),
        "/usr/lib/app/resources/clash.pid"
    );
    assert_eq!(
        r.service_path().unwrap(),
        "/usr/lib/app/resources/clash-verge-service.exe"
    );
    assert_eq!(r.app_res_dir().unwrap(), res);
}

#[test]
fn app_resources_dir_without_bundle_fails_and_changes_nothing() {
    let mut r = installed("/home/alice");
    assert_eq!(r.app_resources_dir(None).unwrap_err(), DirsError::NotFound);
    assert!(r.get_resource_dir().is_none());
}

#[test]
fn init_portable_flag_absent_sentinel_is_noop_and_repeatable() {
    let mut r = Resolver::new(
        VERSION.to_string(),
        IDENTITY.to_string(),
        Some("/home/alice".to_string()),
        Some("/opt/app/bin".to_string()),
        true,
    );
    r.init_portable_flag(false).unwrap();
    assert!(!r.get_portable_flag());
    r.init_portable_flag(false).unwrap();
    assert!(!r.get_portable_flag());
    assert_eq!(r.app_home_dir().unwrap(), "/home/alice/.config/clash-verge");
}

#[test]
fn init_portable_flag_without_exe_fails_io_error() {
    let mut r = installed("/home/alice");
    assert_eq!(r.init_portable_flag(true).unwrap_err(), DirsError::IoError);
    assert!(!r.get_portable_flag());
}

#[test]
fn portable_marker_path_beside_executable() {
    let r = portable("/opt/app/bin");
    assert_eq!(
        r.portable_marker_path().unwrap(),
        "/opt/app/bin/.config/PORTABLE"
    );
}

#[test]
fn portable_marker_path_without_exe_fails_io_error() {
    let r = installed("/home/alice");
    assert_eq!(r.portable_marker_path().unwrap_err(), DirsError::IoError);
}

#[test]
fn accessors_are_pure() {
    let mut r = installed("/home/alice");
    r.set_resource_dir("/usr/lib/app/resources".to_string());
    assert_eq!(r.app_home_dir(), r.app_home_dir());
    assert_eq!(r.clash_path(), r.clash_path());
    assert_eq!(r.verge_path(), r.verge_path());
    assert_eq!(r.storage_path(), r.storage_path());
    assert_eq!(r.clash_pid_path(), r.clash_pid_path());
    assert_eq!(r.get_resource_dir(), r.get_resource_dir());
}

#[test]
fn service_log_file_lands_under_service_dir_with_stamp_name() {
    let r = installed("/home/alice");
    let p = r.service_log_file().unwrap();
    let dir = "/home/alice/.config/clash-verge/logs/service/";
    assert!(p.starts_with(dir), "unexpected prefix: {}", p);
    assert!(p.ends_with(".log"), "unexpected suffix: {}", p);
    let name = &p[dir.len()..];
    let stamp = &name[..name.len() - 4];
    assert_eq!(stamp.len(), 15, "unexpected stamp: {}", stamp);
    let bytes = stamp.as_bytes();
    for (i, b) in bytes.iter().enumerate() {
        if i == 4 || i == 7 || i == 10 {
            assert_eq!(*b, b'-', "expected dash in stamp: {}", stamp);
        } else {
            assert!(b.is_ascii_digit(), "expected digit in stamp: {}", stamp);
        }
    }
}

#[test]
fn service_log_file_fails_like_home_dir() {
    let r = Resolver::new(
        VERSION.to_string(),
        IDENTITY.to_string(),
        None,
        None,
        false,
    );
    assert_eq!(r.service_log_file().unwrap_err(), DirsError::NotFound);
}

#[test]
fn service_log_file_at_fixed_stamp() {
    let r = installed("/home/alice");
    assert_eq!(
        r.service_log_file_at("2024-01-31-0930").unwrap(),
        "/home/alice/.config/clash-verge/logs/service/2024-01-31-0930.log"
    );
}

#[test]
fn path_to_str_is_lossless() {
    let p = "/home/alice/.config/clash-verge".to_string();
    assert_eq!(verge_dirs::path_to_str(&p).unwrap(), p.as_str());
}

#[test]
fn app_version_is_kept() {
    let r = installed("/home/alice");
    assert_eq!(r.get_app_version(), VERSION);
}

#[test]
fn dev_identity_changes_leaf_folder() {
    let r = Resolver::new(
        VERSION.to_string(),
        "clash-verge-dev".to_string(),
        Some("/home/alice".to_string()),
        None,
        false,
    );
    assert_eq!(
        r.app_home_dir().unwrap(),
        "/home/alice/.config/clash-verge-dev"
    );
}
