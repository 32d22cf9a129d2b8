//! Environment-check decisions.
//!
//! The application runs the interpreters and inspects the file system;
//! the decisions on what it finds — which Python serves, whether the
//! virtual environment must be created, whether the runtime is installed
//! — are fixed here.

use vstd::prelude::*;

use crate::text::contains_seq;
use crate::text::str_contains;

verus! {

/// A version banner names the interpreter we need.
pub open spec fn spec_version_marks_python312(out: Seq<char>) -> bool {
    contains_seq(out, "Python 3.12"@)
}

/// Reads the captured `--version` output of the preferred interpreter
/// and, where running it failed, of the fallback interpreter: true iff
/// whichever ran names Python 3.12. With neither output there is no
/// usable interpreter.
pub fn check_bundled_python(primary_output: Option<&str>, fallback_output: Option<&str>) -> (r:
    bool)
    ensures
        primary_output matches Some(o) ==> r == spec_version_marks_python312(o@),
        primary_output is None ==> (fallback_output matches Some(o) ==> r
            == spec_version_marks_python312(o@)),
        primary_output is None && fallback_output is None ==> r == false,
{
    match primary_output {
        Some(o) => str_contains(o, "Python 3.12"),
        None => match fallback_output {
            Some(o) => str_contains(o, "Python 3.12"),
            None => false,
        },
    }
}

/// What preparing the Python environment requires.
#[derive(Clone, Copy, PartialEq, Eq, Structural, Debug)]
pub enum EnvSetupAction {
    /// The virtual environment already exists; nothing to do.
    AlreadyInitialized,
    /// Create the virtual environment, with the preferred interpreter
    /// where it is available and the fallback otherwise.
    CreateVenv { use_python312: bool },
}

/// Decides how to prepare the Python environment: an existing virtual
/// environment is kept as it is; otherwise one is created with whichever
/// interpreter answered.
pub fn initialize_python_environment(venv_exists: bool, python312_available: bool) -> (r:
    EnvSetupAction)
    ensures
        venv_exists ==> r == EnvSetupAction::AlreadyInitialized,
        !venv_exists ==> r == (EnvSetupAction::CreateVenv { use_python312: python312_available }),
{
    if venv_exists {
        EnvSetupAction::AlreadyInitialized
    } else {
        EnvSetupAction::CreateVenv { use_python312: python312_available }
    }
}

/// The backend's dependencies are present iff the virtual environment's
/// interpreter exists and the import check it ran succeeded.
pub fn check_python_dependencies(python_exists: bool, import_check_ok: bool) -> (r: bool)
    ensures
        r == (python_exists && import_check_ok),
{
    python_exists && import_check_ok
}

/// The import statement the dependency check runs.
pub fn python_dependency_check() -> (r: &'static str)
    ensures
        r@ == "import fastapi, uvicorn, chromadb"@,
{
    "import fastapi, uvicorn, chromadb"
}

/// The fixed locations where the model runtime's binary is looked for.
pub fn ollama_install_paths() -> (r: Vec<&'static str>)
    ensures
        r@.len() == 2,
        r@[0]@ == "/usr/local/bin/ollama"@,
        r@[1]@ == "/usr/bin/ollama"@,
{
    let mut v: Vec<&'static str> = Vec::new();
    v.push("/usr/local/bin/ollama");
    v.push("/usr/bin/ollama");
    v
}

/// The model runtime is installed iff its binary stands at any of the
/// fixed locations or answered on the search path.
pub fn check_ollama_installed(path_exists: &Vec<bool>, version_cmd_ok: bool) -> (r: bool)
    ensures
        r == ((exists|i: int| 0 <= i < path_exists@.len() && path_exists@[i]) || version_cmd_ok),
{
    let mut i: usize = 0;
    while i < path_exists.len()
        invariant
            i <= path_exists@.len(),
            forall|j: int| 0 <= j < i ==> !path_exists@[j],
        decreases path_exists@.len() - i,
    {
        if path_exists[i] {
            return true;
        }
        i = i + 1;
    }
    version_cmd_ok
}

} // verus!
