//! Where the installer puts things: a path is a base directory given by
//! the system (or a default when it gives none) followed by path segments.
//!
//! For a program `<app>`:
//! - `<local data>/Programs/rusty-suite/<app>` holds the installed files,
//! - `<data>/rusty-suite/<app>` holds `install.json` and `lang/`,
//! - `<data>/rusty-suite/.tmp/<app>` holds the downloads.
use vstd::prelude::*;

use crate::text::{string_of, views};

verus! {

/// Local application data when the system names none.
pub const DEFAULT_LOCAL_DATA: &'static str = "C:\\Users\\Default\\AppData\\Local";

/// Roaming application data when the system names none.
pub const DEFAULT_DATA: &'static str = "C:\\Users\\Default\\AppData\\Roaming";

/// A base directory followed by path segments.
#[derive(Debug, Clone)]
pub struct PathParts {
    pub base: String,
    pub segments: Vec<String>,
}

/// What is written to `install.json` once a program is installed.
#[derive(Debug, Clone)]
pub struct InstallRecord {
    pub version: String,
    pub exe_path: String,
    pub installed_at: String,
}

/// The base directory and the segments of a path, as text.
pub open spec fn parts_view(p: PathParts) -> (Seq<char>, Seq<Seq<char>>) {
    (p.base@, views(p.segments@))
}

/// The system's directory, or the default.
pub open spec fn base_or(dir: Option<String>, default: Seq<char>) -> Seq<char> {
    match dir {
        Some(d) => d@,
        None => default,
    }
}

/// `<local data>/Programs/rusty-suite/<app>`.
pub open spec fn spec_program_files_dir(local: Option<String>, app: Seq<char>) -> (
    Seq<char>,
    Seq<Seq<char>>,
) {
    (base_or(local, DEFAULT_LOCAL_DATA@), seq!["Programs"@, "rusty-suite"@, app])
}

/// `<data>/rusty-suite/<app>`.
pub open spec fn spec_appdata_dir(data: Option<String>, app: Seq<char>) -> (
    Seq<char>,
    Seq<Seq<char>>,
) {
    (base_or(data, DEFAULT_DATA@), seq!["rusty-suite"@, app])
}

/// `<data>/rusty-suite/.tmp/<app>`.
pub open spec fn spec_temp_dir(data: Option<String>, app: Seq<char>) -> (
    Seq<char>,
    Seq<Seq<char>>,
) {
    (base_or(data, DEFAULT_DATA@), seq!["rusty-suite"@, ".tmp"@, app])
}

/// The given directory, or the default.
fn base(dir: Option<String>, default: &str) -> (r: String)
    ensures
        r@ == base_or(dir, default@),
{
    match dir {
        Some(d) => d,
        None => string_of(default),
    }
}

fn segments3(a: &str, b: &str, c: &str) -> (r: Vec<String>)
    ensures
        views(r@) == seq![a@, b@, c@],
{
    let mut v = Vec::new();
    v.push(string_of(a));
    v.push(string_of(b));
    v.push(string_of(c));
    assert(views(v@) =~= seq![a@, b@, c@]);
    v
}

/// Per-user install directory, no admin rights needed.
pub fn program_files_dir(local_data: Option<String>, app_name: &str) -> (r: PathParts)
    ensures
        parts_view(r) == spec_program_files_dir(local_data, app_name@),
{
    PathParts {
        base: base(local_data, DEFAULT_LOCAL_DATA),
        segments: segments3("Programs", "rusty-suite", app_name),
    }
}

/// The program's data directory.
pub fn appdata_dir(data: Option<String>, app_name: &str) -> (r: PathParts)
    ensures
        parts_view(r) == spec_appdata_dir(data, app_name@),
{
    let mut segments = Vec::new();
    segments.push(string_of("rusty-suite"));
    segments.push(string_of(app_name));
    assert(views(segments@) =~= seq!["rusty-suite"@, app_name@]);
    PathParts { base: base(data, DEFAULT_DATA), segments }
}

/// The program's download directory.
pub fn temp_dir(data: Option<String>, app_name: &str) -> (r: PathParts)
    ensures
        parts_view(r) == spec_temp_dir(data, app_name@),
{
    PathParts { base: base(data, DEFAULT_DATA), segments: segments3("rusty-suite", ".tmp", app_name) }
}

/// The program's `install.json`, in its data directory.
pub fn install_record_path(data: Option<String>, app_name: &str) -> (r: PathParts)
    ensures
        parts_view(r) == (spec_appdata_dir(data, app_name@).0, spec_appdata_dir(
            data,
            app_name@,
        ).1.push("install.json"@)),
{
    let mut p = appdata_dir(data, app_name);
    let ghost before = p.segments@;
    p.segments.push(string_of("install.json"));
    assert(views(p.segments@) =~= views(before).push("install.json"@));
    p
}

/// `<data>/rusty-suite`, where the data directories of all programs live.
pub fn data_root(data: Option<String>) -> (r: PathParts)
    ensures
        parts_view(r) == (base_or(data, DEFAULT_DATA@), seq!["rusty-suite"@]),
{
    let mut segments = Vec::new();
    segments.push(string_of("rusty-suite"));
    assert(views(segments@) =~= seq!["rusty-suite"@]);
    PathParts { base: base(data, DEFAULT_DATA), segments }
}

/// `<data>/rusty-suite/.tmp`, where the download directories live.
pub fn temp_root(data: Option<String>) -> (r: PathParts)
    ensures
        parts_view(r) == (base_or(data, DEFAULT_DATA@), seq!["rusty-suite"@, ".tmp"@]),
{
    let mut segments = Vec::new();
    segments.push(string_of("rusty-suite"));
    segments.push(string_of(".tmp"));
    assert(views(segments@) =~= seq!["rusty-suite"@, ".tmp"@]);
    PathParts { base: base(data, DEFAULT_DATA), segments }
}

/// Two levels above an install directory: `<local data>/Programs`, removed
/// by the cleanup after an uninstallation when it is empty.
pub fn program_files_root(local_data: Option<String>) -> (r: PathParts)
    ensures
        parts_view(r) == (base_or(local_data, DEFAULT_LOCAL_DATA@), seq!["Programs"@]),
{
    let mut segments = Vec::new();
    segments.push(string_of("Programs"));
    assert(views(segments@) =~= seq!["Programs"@]);
    PathParts { base: base(local_data, DEFAULT_LOCAL_DATA), segments }
}

/// `suite-install-<timestamp>.log`.
pub open spec fn spec_log_file_name(stamp: Seq<char>) -> Seq<char> {
    "suite-install-"@ + stamp + ".log"@
}

/// `<data>/rusty-suite/suite-install-logs/suite-install-<timestamp>.log`.
pub fn log_path(data: Option<String>, stamp: &str) -> (r: PathParts)
    ensures
        parts_view(r) == (base_or(data, DEFAULT_DATA@), seq![
            "rusty-suite"@,
            "suite-install-logs"@,
            spec_log_file_name(stamp@),
        ]),
{
    let mut name = string_of("suite-install-");
    crate::text::push_str(&mut name, stamp);
    crate::text::push_str(&mut name, ".log");
    let mut segments = Vec::new();
    segments.push(string_of("rusty-suite"));
    segments.push(string_of("suite-install-logs"));
    segments.push(name);
    assert(views(segments@) =~= seq![
        "rusty-suite"@,
        "suite-install-logs"@,
        spec_log_file_name(stamp@),
    ]);
    PathParts { base: base(data, DEFAULT_DATA), segments }
}

} // verus!
