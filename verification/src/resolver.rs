//! Where the sidecar's script lives, which directory it runs in, and which
//! interpreter runs it.

use vstd::prelude::*;
use crate::config::{DeploymentMode, Platform};
use crate::error::{SidecarError, SidecarErrorView};

verus! {

/// The character that `platform` puts between the components of a path.
pub open spec fn separator(platform: Platform) -> char {
    match platform {
        Platform::Windows => '\\',
        Platform::Other => '/',
    }
}

/// Whether `platform` reads `c` as the end of a path component.
pub open spec fn is_separator(platform: Platform, c: char) -> bool {
    c == '/' || (platform == Platform::Windows && c == '\\')
}

/// `base` extended by one relative component: a separator is put between
/// the two unless `base` is empty or already ends in one.
pub open spec fn joined(base: Seq<char>, component: Seq<char>, platform: Platform) -> Seq<char> {
    if base.len() == 0 || is_separator(platform, base.last()) {
        base + component
    } else {
        base.push(separator(platform)) + component
    }
}

/// The path of the sidecar's script under `base`.
pub open spec fn script_path_text(base: Seq<char>, platform: Platform) -> Seq<char> {
    joined(joined(base, "python"@, platform), "main.py"@, platform)
}

/// The file name of a bundled interpreter.
pub open spec fn bundled_name(platform: Platform) -> Seq<char> {
    match platform {
        Platform::Windows => "python.exe"@,
        Platform::Other => "python"@,
    }
}

/// The path under `base` where a bundled interpreter is looked for.
pub open spec fn bundled_interpreter_text(base: Seq<char>, platform: Platform) -> Seq<char> {
    joined(
        joined(joined(base, "python"@, platform), "python-dist"@, platform),
        bundled_name(platform),
        platform,
    )
}

/// The command that stands for the system's own interpreter.
pub open spec fn system_python(platform: Platform) -> Seq<char> {
    match platform {
        Platform::Windows => "python"@,
        Platform::Other => "python3"@,
    }
}

/// The interpreter to run: the bundled one where it exists, else the
/// system's, by name.
pub open spec fn python_command_text(
    base: Seq<char>,
    platform: Platform,
    bundled_exists: bool,
) -> Seq<char> {
    if bundled_exists {
        bundled_interpreter_text(base, platform)
    } else {
        system_python(platform)
    }
}

fn join(base: &str, component: &str, platform: Platform) -> (path: String)
    ensures
        path@ == joined(base@, component@, platform),
{
    let mut path = base.to_owned();
    let length = base.unicode_len();
    let ends_open = if length == 0 {
        false
    } else {
        let last = base.get_char(length - 1);
        !(last == '/' || (platform == Platform::Windows && last == '\\'))
    };
    if ends_open {
        proof {
            reveal_strlit("\\");
            reveal_strlit("/");
        }
        let mark = match platform {
            Platform::Windows => "\\",
            Platform::Other => "/",
        };
        assert(mark@ =~= seq![separator(platform)]);
        path.append(mark);
        assert(path@ =~= base@.push(separator(platform)));
    }
    path.append(component);
    path
}

/// The path of the sidecar's script for a host whose files live under `base`.
pub fn script_path(base: &str, platform: Platform) -> (path: String)
    ensures
        path@ == script_path_text(base@, platform),
{
    let directory = join(base, "python", platform);
    join(directory.as_str(), "main.py", platform)
}

/// The path where a bundled interpreter would be, for a host whose files
/// live under `base`.
pub fn bundled_interpreter_path(base: &str, platform: Platform) -> (path: String)
    ensures
        path@ == bundled_interpreter_text(base@, platform),
{
    let directory = join(base, "python", platform);
    let distribution = join(directory.as_str(), "python-dist", platform);
    let name = match platform {
        Platform::Windows => "python.exe",
        Platform::Other => "python",
    };
    join(distribution.as_str(), name, platform)
}

/// The interpreter for a sidecar whose files live under `base`.
pub fn python_command(base: &str, platform: Platform, bundled_exists: bool) -> (name: String)
    ensures
        name@ == python_command_text(base@, platform, bundled_exists),
{
    if bundled_exists {
        bundled_interpreter_path(base, platform)
    } else {
        match platform {
            Platform::Windows => "python".to_owned(),
            Platform::Other => "python3".to_owned(),
        }
    }
}

/// Picks the interpreter for a sidecar whose files live under
/// `resource_dir`. `bundled_exists` says whether a file exists at
/// `bundled_interpreter_path(resource_dir, platform)`. The system's
/// interpreter is named without checking that it is installed, so the choice
/// itself never fails.
pub fn get_python_command(resource_dir: &str, platform: Platform, bundled_exists: bool) -> (command:
    Result<String, String>)
    ensures
        command matches Ok(name) && name@ == python_command_text(
            resource_dir@,
            platform,
            bundled_exists,
        ),
{
    Ok(python_command(resource_dir, platform, bundled_exists))
}

/// What a launch needs to know about the sidecar's files.
#[derive(Debug, PartialEq, Eq)]
pub struct Resolution {
    /// The script handed to the interpreter.
    pub script_path: String,
    /// The directory the sidecar runs in.
    pub work_dir: String,
    /// The interpreter: a path to a bundled one, or a command name.
    pub interpreter: String,
}

/// A `Resolution` with its texts as character sequences.
pub struct ResolutionView {
    pub script_path: Seq<char>,
    pub work_dir: Seq<char>,
    pub interpreter: Seq<char>,
}

impl View for Resolution {
    type V = ResolutionView;

    open spec fn view(&self) -> ResolutionView {
        ResolutionView {
            script_path: self.script_path@,
            work_dir: self.work_dir@,
            interpreter: self.interpreter@,
        }
    }
}

impl Clone for Resolution {
    fn clone(&self) -> (copy: Self)
        ensures
            copy == *self,
    {
        Resolution {
            script_path: self.script_path.clone(),
            work_dir: self.work_dir.clone(),
            interpreter: self.interpreter.clone(),
        }
    }
}

/// Which directory the sidecar's files live under.
#[derive(Clone, Copy, Debug, PartialEq, Eq, Structural)]
pub enum BaseDirectory {
    /// The directory the host was started in.
    CurrentDirectory,
    /// The directory the host's bundled resources were installed to.
    ResourceRoot,
}

/// The directory that holds the sidecar's files in `mode`.
pub open spec fn base_of(mode: DeploymentMode) -> BaseDirectory {
    match mode {
        DeploymentMode::Development => BaseDirectory::CurrentDirectory,
        DeploymentMode::Packaged => BaseDirectory::ResourceRoot,
    }
}

/// The directory that holds the sidecar's files in `mode`.
pub fn base_directory(mode: DeploymentMode) -> (base: BaseDirectory)
    ensures
        base == base_of(mode),
{
    match mode {
        DeploymentMode::Development => BaseDirectory::CurrentDirectory,
        DeploymentMode::Packaged => BaseDirectory::ResourceRoot,
    }
}

/// The resolution for a host whose files live under `base`, given which of
/// the two files it looks for exist.
pub open spec fn resolved(
    base: Seq<char>,
    platform: Platform,
    script_exists: bool,
    bundled_exists: bool,
) -> Result<ResolutionView, SidecarErrorView> {
    if script_exists {
        Ok(
            ResolutionView {
                script_path: script_path_text(base, platform),
                work_dir: base,
                interpreter: python_command_text(base, platform, bundled_exists),
            },
        )
    } else {
        Err(SidecarErrorView::ScriptNotFound(script_path_text(base, platform)))
    }
}

/// A resolution or failure with its texts as character sequences.
pub open spec fn resolved_view(result: Result<Resolution, SidecarError>) -> Result<
    ResolutionView,
    SidecarErrorView,
> {
    match result {
        Ok(resolution) => Ok(resolution@),
        Err(error) => Err(error@),
    }
}

/// Works out what to launch for a host whose files live under `base`.
/// `script_exists` says whether a file exists at `script_path(base,
/// platform)`, `bundled_exists` whether one exists at
/// `bundled_interpreter_path(base, platform)`. A missing script is the only
/// failure; a missing bundled interpreter means the system's is named.
pub fn resolve(base: &str, platform: Platform, script_exists: bool, bundled_exists: bool) -> (result:
    Result<Resolution, SidecarError>)
    ensures
        resolved_view(result) == resolved(base@, platform, script_exists, bundled_exists),
{
    let script = script_path(base, platform);
    if !script_exists {
        return Err(SidecarError::ScriptNotFound(script));
    }
    let interpreter = python_command(base, platform, bundled_exists);
    Ok(Resolution { script_path: script, work_dir: base.to_owned(), interpreter })
}

} // verus!
