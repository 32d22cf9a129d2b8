//! Where the application keeps its files.
//!
//! Everything lives under one data directory in the user's home: the
//! Python virtual environment, its interpreters, and the persisted
//! preferences. The layout is fixed here as exact string functions; only
//! the home directory itself comes from the platform, through a trusted
//! call whose value nothing is promised about.

use vstd::prelude::*;

verus! {

/// Relies on dirs::home_dir: the user's home directory, where the
/// platform knows one and its path is valid Unicode. The value is
/// machine-dependent, so nothing is promised of it.
#[verifier::external_body]
fn user_home_dir() -> (r: Option<String>) {
    dirs::home_dir().and_then(|p| p.to_str().map(str::to_owned))
}

/// The application's data directory under a home directory.
pub open spec fn spec_app_data_dir(home: Seq<char>) -> Seq<char> {
    home + "/.local/share/open-webui"@
}

/// The Python virtual environment under the data directory.
pub open spec fn spec_venv_dir(home: Seq<char>) -> Seq<char> {
    spec_app_data_dir(home) + "/venv"@
}

/// The virtual environment's Python interpreter.
pub open spec fn spec_python_executable(home: Seq<char>) -> Seq<char> {
    spec_venv_dir(home) + "/bin/python"@
}

/// The virtual environment's pip.
pub open spec fn spec_pip_executable(home: Seq<char>) -> Seq<char> {
    spec_venv_dir(home) + "/bin/pip"@
}

/// The persisted preferences file under the data directory.
pub open spec fn spec_preferences_path(home: Seq<char>) -> Seq<char> {
    spec_app_data_dir(home) + "/preferences.json"@
}

/// Writes the data directory under the given home directory.
pub fn app_data_dir_under(home: &str) -> (r: String)
    ensures
        r@ == spec_app_data_dir(home@),
{
    let mut d = home.to_owned();
    d.append("/.local/share/open-webui");
    d
}

/// Writes the virtual environment directory under the given home.
pub fn venv_dir_under(home: &str) -> (r: String)
    ensures
        r@ == spec_venv_dir(home@),
{
    let mut d = app_data_dir_under(home);
    d.append("/venv");
    d
}

/// Writes the virtual environment's Python interpreter path under the
/// given home.
pub fn python_executable_under(home: &str) -> (r: String)
    ensures
        r@ == spec_python_executable(home@),
{
    let mut d = venv_dir_under(home);
    d.append("/bin/python");
    d
}

/// Writes the virtual environment's pip path under the given home.
pub fn pip_executable_under(home: &str) -> (r: String)
    ensures
        r@ == spec_pip_executable(home@),
{
    let mut d = venv_dir_under(home);
    d.append("/bin/pip");
    d
}

/// Writes the preferences file path under the given home.
pub fn preferences_path_under(home: &str) -> (r: String)
    ensures
        r@ == spec_preferences_path(home@),
{
    let mut d = app_data_dir_under(home);
    d.append("/preferences.json");
    d
}

/// The app data directory path, under the current user's home.
pub fn get_app_data_dir() -> (r: Result<String, String>)
    ensures
        r matches Ok(d) ==> exists|home: Seq<char>| d@ == #[trigger] spec_app_data_dir(home),
        r matches Err(e) ==> e@ == "Could not determine home directory"@,
{
    match user_home_dir() {
        Some(home) => Ok(app_data_dir_under(home.as_str())),
        None => Err("Could not determine home directory".to_owned()),
    }
}

/// The Python venv directory path, under the current user's home.
pub fn get_venv_dir() -> (r: Result<String, String>)
    ensures
        r matches Ok(d) ==> exists|home: Seq<char>| d@ == #[trigger] spec_venv_dir(home),
        r matches Err(e) ==> e@ == "Could not determine home directory"@,
{
    match user_home_dir() {
        Some(home) => Ok(venv_dir_under(home.as_str())),
        None => Err("Could not determine home directory".to_owned()),
    }
}

/// The venv's Python executable path, under the current user's home.
pub fn get_python_executable() -> (r: Result<String, String>)
    ensures
        r matches Ok(d) ==> exists|home: Seq<char>| d@ == #[trigger] spec_python_executable(home),
        r matches Err(e) ==> e@ == "Could not determine home directory"@,
{
    match user_home_dir() {
        Some(home) => Ok(python_executable_under(home.as_str())),
        None => Err("Could not determine home directory".to_owned()),
    }
}

/// The venv's pip executable path, under the current user's home.
pub fn get_pip_executable() -> (r: Result<String, String>)
    ensures
        r matches Ok(d) ==> exists|home: Seq<char>| d@ == #[trigger] spec_pip_executable(home),
        r matches Err(e) ==> e@ == "Could not determine home directory"@,
{
    match user_home_dir() {
        Some(home) => Ok(pip_executable_under(home.as_str())),
        None => Err("Could not determine home directory".to_owned()),
    }
}

/// The preferences file path, under the current user's home.
pub fn get_preferences_path() -> (r: Result<String, String>)
    ensures
        r matches Ok(d) ==> exists|home: Seq<char>| d@ == #[trigger] spec_preferences_path(home),
        r matches Err(e) ==> e@ == "Could not determine home directory"@,
{
    match user_home_dir() {
        Some(home) => Ok(preferences_path_under(home.as_str())),
        None => Err("Could not determine home directory".to_owned()),
    }
}

/// The app data directory as shown to the user interface; the same path
/// that [`get_app_data_dir`] resolves.
pub fn get_app_data_path() -> (r: Result<String, String>)
    ensures
        r matches Ok(d) ==> exists|home: Seq<char>| d@ == #[trigger] spec_app_data_dir(home),
        r matches Err(e) ==> e@ == "Could not determine home directory"@,
{
    get_app_data_dir()
}

/// The packaged backend directory under the application's resource
/// directory.
pub open spec fn spec_backend_dir(resource_dir: Seq<char>) -> Seq<char> {
    resource_dir + "/backend"@
}

/// The backend's requirements file under the resource directory.
pub open spec fn spec_requirements_path(resource_dir: Seq<char>) -> Seq<char> {
    spec_backend_dir(resource_dir) + "/requirements.txt"@
}

/// Writes the packaged backend directory path.
pub fn backend_dir_under(resource_dir: &str) -> (r: String)
    ensures
        r@ == spec_backend_dir(resource_dir@),
{
    let mut d = resource_dir.to_owned();
    d.append("/backend");
    d
}

/// Writes the backend's requirements file path.
pub fn requirements_path_under(resource_dir: &str) -> (r: String)
    ensures
        r@ == spec_requirements_path(resource_dir@),
{
    let mut d = backend_dir_under(resource_dir);
    d.append("/requirements.txt");
    d
}

} // verus!
