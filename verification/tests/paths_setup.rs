use supervisor_core::decimal::parse_u16;
use supervisor_core::decimal::u16_to_decimal;
use supervisor_core::paths::app_data_dir_under;
use supervisor_core::paths::backend_dir_under;
use supervisor_core::paths::get_app_data_dir;
use supervisor_core::paths::pip_executable_under;
use supervisor_core::paths::preferences_path_under;
use supervisor_core::paths::python_executable_under;
use supervisor_core::paths::venv_dir_under;
use supervisor_core::paths::get_pip_executable;
use supervisor_core::paths::get_preferences_path;
use supervisor_core::paths::get_python_executable;
use supervisor_core::paths::get_venv_dir;
use supervisor_core::paths::requirements_path_under;
use supervisor_core::setup::check_bundled_python;
use supervisor_core::setup::check_ollama_installed;
use supervisor_core::setup::check_python_dependencies;
use supervisor_core::setup::initialize_python_environment;
use supervisor_core::setup::ollama_install_paths;
use supervisor_core::setup::python_dependency_check;
use supervisor_core::setup::EnvSetupAction;
use supervisor_core::text::str_contains;
use supervisor_core::text::str_starts_with;

fn ends_or_err(r: Result<String, String>, suffix: &str) {
    match r {
        Ok(d) => assert!(d.ends_with(suffix), "{d} should end with {suffix}"),
        Err(e) => assert_eq!(e, "Could not determine home directory"),
    }
}

#[test]
fn data_paths_lie_under_the_data_directory() {
    ends_or_err(get_app_data_dir(), "/.local/share/open-webui");
    ends_or_err(get_venv_dir(), "/.local/share/open-webui/venv");
    ends_or_err(get_python_executable(), "/.local/share/open-webui/venv/bin/python");
    ends_or_err(get_pip_executable(), "/.local/share/open-webui/venv/bin/pip");
    ends_or_err(get_preferences_path(), "/.local/share/open-webui/preferences.json");
}

#[test]
fn layout_under_a_given_home() {
    assert_eq!(app_data_dir_under("/home/u"), "/home/u/.local/share/open-webui");
    assert_eq!(venv_dir_under("/home/u"), "/home/u/.local/share/open-webui/venv");
    assert_eq!(
        python_executable_under("/home/u"),
        "/home/u/.local/share/open-webui/venv/bin/python"
    );
    assert_eq!(pip_executable_under("/home/u"), "/home/u/.local/share/open-webui/venv/bin/pip");
    assert_eq!(
        preferences_path_under("/home/u"),
        "/home/u/.local/share/open-webui/preferences.json"
    );
}

#[test]
fn resource_paths() {
    assert_eq!(backend_dir_under("/opt/app/resources"), "/opt/app/resources/backend");
    assert_eq!(
        requirements_path_under("/opt/app/resources"),
        "/opt/app/resources/backend/requirements.txt"
    );
}

#[test]
fn python_version_banner_detection() {
    assert!(check_bundled_python(Some("Python 3.12.4"), None));
    assert!(!check_bundled_python(Some("Python 3.11.9"), None));
    // The preferred interpreter could not run at all: the fallback's
    // banner decides.
    assert!(check_bundled_python(None, Some("Python 3.12.0")));
    assert!(!check_bundled_python(None, Some("Python 3.10.1")));
    assert!(!check_bundled_python(None, None));
    // The preferred interpreter ran but is not 3.12: no fallback.
    assert!(!check_bundled_python(Some("Python 3.11.9"), Some("Python 3.12.0")));
}

#[test]
fn venv_setup_decision() {
    assert_eq!(initialize_python_environment(true, false), EnvSetupAction::AlreadyInitialized);
    assert_eq!(initialize_python_environment(true, true), EnvSetupAction::AlreadyInitialized);
    assert_eq!(
        initialize_python_environment(false, true),
        EnvSetupAction::CreateVenv { use_python312: true }
    );
    assert_eq!(
        initialize_python_environment(false, false),
        EnvSetupAction::CreateVenv { use_python312: false }
    );
}

#[test]
fn python_dependency_decision() {
    assert!(!check_python_dependencies(false, true));
    assert!(!check_python_dependencies(true, false));
    assert!(check_python_dependencies(true, true));
    assert_eq!(python_dependency_check(), "import fastapi, uvicorn, chromadb");
}

#[test]
fn ollama_installed_decision() {
    assert_eq!(ollama_install_paths(), vec!["/usr/local/bin/ollama", "/usr/bin/ollama"]);
    assert!(!check_ollama_installed(&vec![false, false], false));
    assert!(check_ollama_installed(&vec![false, true], false));
    assert!(check_ollama_installed(&vec![true, false], false));
    assert!(check_ollama_installed(&vec![false, false], true));
    assert!(check_ollama_installed(&vec![], true));
    assert!(!check_ollama_installed(&vec![], false));
}

#[test]
fn decimal_printing_and_reading() {
    assert_eq!(u16_to_decimal(0), "0");
    assert_eq!(u16_to_decimal(7), "7");
    assert_eq!(u16_to_decimal(8080), "8080");
    assert_eq!(u16_to_decimal(65535), "65535");
    assert_eq!(parse_u16("123}", 0), Some((123, 3)));
    assert_eq!(parse_u16("65535", 0), Some((65535, 5)));
    // Too large, empty, or non-canonical runs are refused.
    assert_eq!(parse_u16("65536}", 0), None);
    assert_eq!(parse_u16("}", 0), None);
    assert_eq!(parse_u16("0123", 0), None);
    assert_eq!(parse_u16("abc", 0), None);
    // Reading starts at the given position.
    assert_eq!(parse_u16("x42y", 1), Some((42, 3)));
}

#[test]
fn text_matching() {
    assert!(str_starts_with("llama3:8b", "llama3"));
    assert!(!str_starts_with("llama", "llama3"));
    assert!(str_starts_with("anything", ""));
    assert!(str_contains("Python 3.12.4 on linux", "Python 3.12"));
    assert!(!str_contains("Python 3.1", "Python 3.12"));
    assert!(str_contains("abc", ""));
}
