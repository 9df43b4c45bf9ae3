use sidecar_supervisor::config::{DeploymentMode, Platform};
use sidecar_supervisor::error::SidecarError;
use sidecar_supervisor::resolver::{
    base_directory, bundled_interpreter_path, get_python_command, python_command, resolve,
    script_path, BaseDirectory, Resolution,
};

#[test]
fn script_lives_under_python() {
    assert_eq!(script_path("/opt/app", Platform::Other), "/opt/app/python/main.py");
}

#[test]
fn script_path_on_windows() {
    assert_eq!(
        script_path("C:\\Program Files\\App", Platform::Windows),
        "C:\\Program Files\\App\\python\\main.py"
    );
}

#[test]
fn base_that_ends_in_a_separator_gets_no_second_one() {
    assert_eq!(script_path("/opt/app/", Platform::Other), "/opt/app/python/main.py");
    assert_eq!(script_path("C:\\app\\", Platform::Windows), "C:\\app\\python\\main.py");
    assert_eq!(script_path("C:/app/", Platform::Windows), "C:/app/python\\main.py");
}

#[test]
fn backslash_is_no_separator_elsewhere() {
    assert_eq!(script_path("/opt/app\\", Platform::Other), "/opt/app\\/python/main.py");
}

#[test]
fn empty_base_gives_a_relative_path() {
    assert_eq!(script_path("", Platform::Other), "python/main.py");
    assert_eq!(script_path("", Platform::Windows), "python\\main.py");
}

#[test]
fn base_may_hold_any_characters() {
    assert_eq!(
        script_path("/home/zoë/программа", Platform::Other),
        "/home/zoë/программа/python/main.py"
    );
}

#[test]
fn bundled_interpreter_lives_under_python_dist() {
    assert_eq!(
        bundled_interpreter_path("/opt/app", Platform::Other),
        "/opt/app/python/python-dist/python"
    );
    assert_eq!(
        bundled_interpreter_path("C:\\app", Platform::Windows),
        "C:\\app\\python\\python-dist\\python.exe"
    );
}

#[test]
fn bundled_interpreter_is_preferred() {
    assert_eq!(
        get_python_command("/opt/app", Platform::Other, true),
        Ok("/opt/app/python/python-dist/python".to_string())
    );
    assert_eq!(
        get_python_command("C:\\app", Platform::Windows, true),
        Ok("C:\\app\\python\\python-dist\\python.exe".to_string())
    );
}

#[test]
fn system_interpreter_is_the_fallback() {
    assert_eq!(get_python_command("/opt/app", Platform::Other, false), Ok("python3".to_string()));
    assert_eq!(get_python_command("C:\\app", Platform::Windows, false), Ok("python".to_string()));
}

#[test]
fn python_command_is_what_get_python_command_wraps() {
    assert_eq!(python_command("/opt/app", Platform::Other, false), "python3");
    assert_eq!(python_command("/opt/app", Platform::Other, true), "/opt/app/python/python-dist/python");
}

#[test]
fn base_directory_follows_the_mode() {
    assert_eq!(base_directory(DeploymentMode::Development), BaseDirectory::CurrentDirectory);
    assert_eq!(base_directory(DeploymentMode::Packaged), BaseDirectory::ResourceRoot);
}

#[test]
fn resolution_with_bundled_interpreter() {
    assert_eq!(
        resolve("/opt/app", Platform::Other, true, true),
        Ok(Resolution {
            script_path: "/opt/app/python/main.py".to_string(),
            work_dir: "/opt/app".to_string(),
            interpreter: "/opt/app/python/python-dist/python".to_string(),
        })
    );
}

#[test]
fn resolution_with_system_interpreter() {
    assert_eq!(
        resolve("/opt/app", Platform::Other, true, false),
        Ok(Resolution {
            script_path: "/opt/app/python/main.py".to_string(),
            work_dir: "/opt/app".to_string(),
            interpreter: "python3".to_string(),
        })
    );
}

#[test]
fn missing_script_is_the_only_failure() {
    assert_eq!(
        resolve("/opt/app", Platform::Other, false, true),
        Err(SidecarError::ScriptNotFound("/opt/app/python/main.py".to_string()))
    );
    assert_eq!(
        resolve("/opt/app", Platform::Other, false, false),
        Err(SidecarError::ScriptNotFound("/opt/app/python/main.py".to_string()))
    );
}

#[test]
fn resolution_can_be_cloned() {
    let resolution = resolve("/opt/app", Platform::Other, true, false).unwrap();
    assert_eq!(resolution.clone(), resolution);
}
