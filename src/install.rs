//! What installation writes: the host record that registers this program with
//! the browser, and the launcher script that the record points to.
use vstd::prelude::*;
use vstd::string::StringExecFns;

verus! {

/// Faults of the installation mode.
#[derive(Clone, Copy, Debug, PartialEq, Eq, Structural)]
pub enum Error {
    ErrorCreatingProjectKey,
    ErrorWritingProjectKey,
    FirefoxNotFound,
    InvalidJsonPath,
    ErrorWritingConfigData,
}

impl Error {
    /// The text shown to the operator; the same for every fault.
    pub fn message(&self) -> (r: String)
        ensures
            r@ == "pprefox-rs error"@,
    {
        "pprefox-rs error".to_owned()
    }
}

/// The native-messaging host record.
#[derive(Clone, Debug, PartialEq)]
pub struct Host {
    pub name: String,
    pub description: String,
    pub path: String,
    pub _type: String,
    pub allowed_extensions: Vec<String>,
}

impl Host {
    /// The record for this program, launched through the script at `script_path`
    /// over standard input and output, reachable from its one extension only.
    pub fn for_script(script_path: String) -> (r: Host)
        ensures
            r.name@ == "pprefox_rs"@,
            r.description@ == "pprefox_rs"@,
            r.path == script_path,
            r._type@ == "stdio"@,
            r.allowed_extensions@.len() == 1,
            r.allowed_extensions@[0]@ == "pprefox@duckfromdiscord.github.io"@,
    {
        let mut allowed: Vec<String> = Vec::new();
        allowed.push("pprefox@duckfromdiscord.github.io".to_owned());
        Host {
            name: "pprefox_rs".to_owned(),
            description: "pprefox_rs".to_owned(),
            path: script_path,
            _type: "stdio".to_owned(),
            allowed_extensions: allowed,
        }
    }
}

/// The launcher script: echo off (nothing but frames may reach the browser),
/// then the program at `exe_path` in serve mode.
pub fn batch_contents(exe_path: &str) -> (r: String)
    ensures
        r@ == "@echo off\r\n"@ + exe_path@ + " -s"@,
{
    let mut s = "@echo off\r\n".to_owned();
    s.append(exe_path);
    s.append(" -s");
    s
}

} // verus!
