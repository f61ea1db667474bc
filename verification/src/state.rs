//! Application state: screens, the program entries, the install options and
//! the progress log that the installation fills and the screens show.
use vstd::prelude::*;

use crate::github::{GithubRelease, GithubRepo};
use crate::text::{str_eq, string_of};

verus! {

/// The screens of the installer.
#[derive(Debug, Clone, Copy, PartialEq, Eq)]
pub enum Screen {
    Loading,
    Eula,
    ProgramList,
    Installing,
    Done,
}

/// The tab of the program list.
#[derive(Debug, Clone, Copy, PartialEq, Eq)]
pub enum ListMode {
    Install,
    Uninstall,
}

/// A program of the suite as the program list shows it.
#[derive(Debug, Clone)]
pub struct ProgramEntry {
    pub repo: GithubRepo,
    pub release: Option<GithubRelease>,
    pub languages: Vec<String>,
    /// "langue" or "lang": whichever folder was found in the repo.
    pub lang_folder: String,
    pub selected: bool,
    pub installed_version: Option<String>,
    pub needs_update: bool,
}

/// What the user chose for the installation.
#[derive(Debug, Clone)]
pub struct InstallOptions {
    pub desktop_shortcut: bool,
    pub quicklaunch_shortcut: bool,
    pub selected_language: String,
}

impl Default for InstallOptions {
    /// A desktop shortcut, no Start menu entry, and English.
    fn default() -> (r: Self)
        ensures
            r.desktop_shortcut,
            !r.quicklaunch_shortcut,
            r.selected_language@ == "EN_en.default.toml"@,
    {
        InstallOptions {
            desktop_shortcut: true,
            quicklaunch_shortcut: false,
            selected_language: string_of("EN_en.default.toml"),
        }
    }
}

/// Where a program stands in the installation.
#[derive(Debug, Clone)]
pub enum InstallStatus {
    Pending,
    Downloading(String),
    Installing(String),
    Done(String),
    Error(String),
}

/// A line of the progress log: a program, its status and what was done.
#[derive(Debug, Clone)]
pub struct InstallLogEntry {
    pub app: String,
    pub status: InstallStatus,
    pub actions: Vec<String>,
}

/// The state of the whole application.
pub struct AppState {
    pub screen: Screen,
    pub list_mode: ListMode,
    pub eula_accepted: bool,
    pub programs: Vec<ProgramEntry>,
    pub common_languages: Vec<String>,
    pub install_options: InstallOptions,
    pub loading_error: Option<String>,
    /// true when the active operation is an uninstall (vs install)
    pub is_uninstall: bool,
}

impl Default for AppState {
    /// The loading screen of the install tab, nothing loaded or accepted yet.
    fn default() -> (r: Self)
        ensures
            r.screen == Screen::Loading,
            r.list_mode == ListMode::Install,
            !r.eula_accepted,
            r.programs@.len() == 0,
            r.common_languages@.len() == 0,
            r.install_options.desktop_shortcut,
            !r.install_options.quicklaunch_shortcut,
            r.install_options.selected_language@ == "EN_en.default.toml"@,
            r.loading_error is None,
            !r.is_uninstall,
    {
        AppState {
            screen: Screen::Loading,
            list_mode: ListMode::Install,
            eula_accepted: false,
            programs: Vec::new(),
            common_languages: Vec::new(),
            install_options: InstallOptions::default(),
            loading_error: None,
            is_uninstall: false,
        }
    }
}

/// An installed program needs an update when its installed version is not
/// the tag of the latest release; without both there is nothing to compare.
pub open spec fn spec_needs_update(
    installed: Option<String>,
    release: Option<GithubRelease>,
) -> bool {
    match (installed, release) {
        (Some(iv), Some(rel)) => iv@ != rel.tag_name@,
        _ => false,
    }
}

/// Whether a program needs an update.
pub fn needs_update(installed: &Option<String>, release: &Option<GithubRelease>) -> (r: bool)
    ensures
        r == spec_needs_update(*installed, *release),
{
    match (installed, release) {
        (Some(iv), Some(rel)) => !str_eq(iv.as_str(), rel.tag_name.as_str()),
        _ => false,
    }
}

// ───────────────────────────── the progress log ─────────────────────────────

/// Index of the first log line of `app`.
pub open spec fn entry_index(log: Seq<InstallLogEntry>, app: Seq<char>) -> Option<int> {
    if exists|i: int| 0 <= i < log.len() && log[i].app@ == app {
        Some(
            choose|i: int|
                0 <= i < log.len() && log[i].app@ == app && forall|k: int|
                    0 <= k < i ==> #[trigger] log[k].app@ != app,
        )
    } else {
        None
    }
}

/// The status of the first log line of `app`, if any.
pub open spec fn status_of(log: Seq<InstallLogEntry>, app: Seq<char>) -> Option<InstallStatus> {
    match entry_index(log, app) {
        Some(i) => Some(log[i].status),
        None => None,
    }
}

/// The actions of the first log line of `app`, if any.
pub open spec fn actions_of(log: Seq<InstallLogEntry>, app: Seq<char>) -> Option<Seq<String>> {
    match entry_index(log, app) {
        Some(i) => Some(log[i].actions@),
        None => None,
    }
}

/// `new` is `old` where line `i` is replaced by `e` (the other lines kept).
pub open spec fn replaced_line(
    old: Seq<InstallLogEntry>,
    new: Seq<InstallLogEntry>,
    i: int,
    e: InstallLogEntry,
) -> bool {
    &&& new.len() == old.len()
    &&& new[i] == e
    &&& forall|j: int| 0 <= j < old.len() && j != i ==> new[j] == old[j]
}

/// `new` is `old` with one more line at the end, for `app`.
pub open spec fn appended_line(
    old: Seq<InstallLogEntry>,
    new: Seq<InstallLogEntry>,
    app: Seq<char>,
    status: InstallStatus,
    actions: Seq<String>,
) -> bool {
    &&& new.len() == old.len() + 1
    &&& new.subrange(0, old.len() as int) == old
    &&& new[old.len() as int].app@ == app
    &&& new[old.len() as int].status == status
    &&& new[old.len() as int].actions@ == actions
}

/// What `set_status` does: the first line of `app` takes the status, or a
/// line is added for it with that status and no action.
pub open spec fn set_status_post(
    old: Seq<InstallLogEntry>,
    new: Seq<InstallLogEntry>,
    app: Seq<char>,
    status: InstallStatus,
) -> bool {
    match entry_index(old, app) {
        Some(i) => replaced_line(
            old,
            new,
            i,
            InstallLogEntry { app: old[i].app, status, actions: old[i].actions },
        ),
        None => appended_line(old, new, app, status, Seq::empty()),
    }
}

/// What `action` does: the message is appended to the actions of the first
/// line of `app`, or a pending line is added for it with that one action.
pub open spec fn action_post(
    old: Seq<InstallLogEntry>,
    new: Seq<InstallLogEntry>,
    app: Seq<char>,
    message: String,
) -> bool {
    match entry_index(old, app) {
        Some(i) => {
            &&& new.len() == old.len()
            &&& new[i].app == old[i].app
            &&& new[i].status == old[i].status
            &&& new[i].actions@ == old[i].actions@.push(message)
            &&& forall|j: int| 0 <= j < old.len() && j != i ==> new[j] == old[j]
        },
        None => appended_line(old, new, app, InstallStatus::Pending, seq![message]),
    }
}

/// `i` is the first log line of `app`.
pub open spec fn is_first_line(log: Seq<InstallLogEntry>, app: Seq<char>, i: int) -> bool {
    0 <= i < log.len() && log[i].app@ == app && forall|k: int|
        0 <= k < i ==> #[trigger] log[k].app@ != app
}

pub(crate) proof fn lemma_entry_index(log: Seq<InstallLogEntry>, app: Seq<char>)
    ensures
        match entry_index(log, app) {
            Some(i) => is_first_line(log, app, i),
            None => forall|k: int| 0 <= k < log.len() ==> #[trigger] log[k].app@ != app,
        },
{
    if exists|i: int| 0 <= i < log.len() && log[i].app@ == app {
        let w = choose|i: int| 0 <= i < log.len() && log[i].app@ == app;
        lemma_first_line_exists(log, app, w);
    }
}

proof fn lemma_first_line_exists(log: Seq<InstallLogEntry>, app: Seq<char>, w: int)
    requires
        0 <= w < log.len(),
        log[w].app@ == app,
    ensures
        exists|i: int| is_first_line(log, app, i),
    decreases w,
{
    if exists|k: int| 0 <= k < w && log[k].app@ == app {
        let k = choose|k: int| 0 <= k < w && log[k].app@ == app;
        lemma_first_line_exists(log, app, k);
    } else {
        assert(is_first_line(log, app, w));
    }
}

pub(crate) proof fn lemma_first_line_is_entry(log: Seq<InstallLogEntry>, app: Seq<char>, i: int)
    requires
        is_first_line(log, app, i),
    ensures
        entry_index(log, app) == Some(i),
{
    lemma_entry_index(log, app);
    let j = entry_index(log, app)->0;
    assert(!(j < i) && !(i < j));
}

/// Logs whose lines name the same programs in the same order find every
/// program at the same line.
pub(crate) proof fn lemma_entry_index_same_apps(
    a: Seq<InstallLogEntry>,
    b: Seq<InstallLogEntry>,
    app: Seq<char>,
)
    requires
        a.len() == b.len(),
        forall|j: int| 0 <= j < a.len() ==> #[trigger] a[j].app@ == b[j].app@,
    ensures
        entry_index(a, app) == entry_index(b, app),
{
    lemma_entry_index(a, app);
    lemma_entry_index(b, app);
    if let Some(i) = entry_index(a, app) {
        assert forall|k: int| 0 <= k < i implies #[trigger] b[k].app@ != app by {
            assert(a[k].app@ != app);
        }
        assert(is_first_line(b, app, i));
        lemma_first_line_is_entry(b, app, i);
    } else if let Some(i) = entry_index(b, app) {
        assert(a[i].app@ == app);
    }
}

/// A line added at the end is found only for a program that had no line.
pub(crate) proof fn lemma_entry_index_appended(
    old: Seq<InstallLogEntry>,
    new: Seq<InstallLogEntry>,
    app: Seq<char>,
)
    requires
        new.len() == old.len() + 1,
        new.subrange(0, old.len() as int) == old,
    ensures
        entry_index(new, app) == (if entry_index(old, app) is Some {
            entry_index(old, app)
        } else if new[old.len() as int].app@ == app {
            Some(old.len() as int)
        } else {
            None
        }),
{
    lemma_entry_index(old, app);
    lemma_entry_index(new, app);
    assert forall|j: int| 0 <= j < old.len() implies #[trigger] new[j] == old[j] by {
        assert(new.subrange(0, old.len() as int)[j] == new[j]);
    }
    if let Some(i) = entry_index(old, app) {
        assert(is_first_line(new, app, i));
        lemma_first_line_is_entry(new, app, i);
    } else if new[old.len() as int].app@ == app {
        assert(is_first_line(new, app, old.len() as int));
        lemma_first_line_is_entry(new, app, old.len() as int);
    } else {
        if let Some(i) = entry_index(new, app) {
            assert(new[i].app@ == app);
        }
    }
}

/// After `set_status`, the program's line has the new status.
pub proof fn law_set_status_then_status(
    old: Seq<InstallLogEntry>,
    new: Seq<InstallLogEntry>,
    app: Seq<char>,
    status: InstallStatus,
)
    requires
        set_status_post(old, new, app, status),
    ensures
        status_of(new, app) == Some(status),
{
    match entry_index(old, app) {
        Some(i) => {
            lemma_entry_index_same_apps(old, new, app);
        },
        None => {
            lemma_entry_index_appended(old, new, app);
        },
    }
}

/// `set_status` leaves the status and the actions of every other program as
/// they were, and keeps the actions of the program itself.
pub proof fn law_set_status_frame(
    old: Seq<InstallLogEntry>,
    new: Seq<InstallLogEntry>,
    app: Seq<char>,
    status: InstallStatus,
    other: Seq<char>,
)
    requires
        set_status_post(old, new, app, status),
        other != app,
    ensures
        status_of(new, other) == status_of(old, other),
        actions_of(new, other) == actions_of(old, other),
        entry_index(old, app) is Some ==> actions_of(new, app) == actions_of(old, app),
{
    match entry_index(old, app) {
        Some(i) => {
            assert forall|j: int| 0 <= j < old.len() implies #[trigger] old[j].app@ == new[j].app@ by {
                if j != i {
                    assert(new[j] == old[j]);
                }
            }
            lemma_entry_index_same_apps(old, new, other);
            lemma_entry_index_same_apps(old, new, app);
            lemma_entry_index(old, other);
            lemma_entry_index(old, app);
            if let Some(k) = entry_index(old, other) {
                assert(k != i);
                assert(new[k] == old[k]);
            }
        },
        None => {
            lemma_entry_index_appended(old, new, other);
            lemma_entry_index(old, other);
            if let Some(k) = entry_index(old, other) {
                assert(new.subrange(0, old.len() as int)[k] == new[k]);
            }
        },
    }
}

/// `set_status` twice with the same status is `set_status` once: the second
/// call finds the line and changes nothing.
pub proof fn law_set_status_idempotent(
    a: Seq<InstallLogEntry>,
    b: Seq<InstallLogEntry>,
    c: Seq<InstallLogEntry>,
    app: Seq<char>,
    status: InstallStatus,
)
    requires
        set_status_post(a, b, app, status),
        set_status_post(b, c, app, status),
    ensures
        c =~= b,
{
    law_set_status_then_status(a, b, app, status);
    lemma_entry_index(b, app);
}

/// After `action`, the program's actions end with the message, after the
/// actions it had (none for a new line); its status is unchanged, or pending
/// for a new line.
pub proof fn law_action_appends(
    old: Seq<InstallLogEntry>,
    new: Seq<InstallLogEntry>,
    app: Seq<char>,
    message: String,
)
    requires
        action_post(old, new, app, message),
    ensures
        actions_of(new, app) == Some(
            match actions_of(old, app) {
                Some(a) => a.push(message),
                None => seq![message],
            },
        ),
        status_of(new, app) == Some(
            match status_of(old, app) {
                Some(s) => s,
                None => InstallStatus::Pending,
            },
        ),
{
    match entry_index(old, app) {
        Some(i) => {
            lemma_entry_index_same_apps(old, new, app);
        },
        None => {
            lemma_entry_index_appended(old, new, app);
        },
    }
}

/// Finds the first log line of `app`.
pub fn find_entry(log: &Vec<InstallLogEntry>, app: &str) -> (r: Option<usize>)
    ensures
        match r {
            Some(i) => entry_index(log@, app@) == Some(i as int),
            None => entry_index(log@, app@) is None,
        },
        r matches Some(i) ==> i < log@.len() && log@[i as int].app@ == app@,
{
    let mut i: usize = 0;
    while i < log.len()
        invariant
            i <= log.len(),
            forall|k: int| 0 <= k < i ==> #[trigger] log@[k].app@ != app@,
        decreases log.len() - i,
    {
        if str_eq(log[i].app.as_str(), app) {
            proof {
                let c = choose|c: int|
                    0 <= c < log@.len() && log@[c].app@ == app@ && forall|k: int|
                        0 <= k < c ==> #[trigger] log@[k].app@ != app@;
                assert(!(c < i as int) && !(i < c));
            }
            return Some(i);
        }
        i = i + 1;
    }
    None
}

/// Sets the status of a program in the log, adding its line when missing.
pub fn set_status(log: &mut Vec<InstallLogEntry>, app: &str, status: InstallStatus)
    ensures
        set_status_post(old(log)@, final(log)@, app@, status),
{
    match find_entry(log, app) {
        Some(i) => {
            let mut e = log.remove(i);
            e.status = status;
            let ghost eg = e;
            log.insert(i, e);
            assert(log@ =~= old(log)@.update(i as int, eg));
        },
        None => {
            log.push(InstallLogEntry { app: string_of(app), status, actions: Vec::new() });
            assert(log@.subrange(0, old(log)@.len() as int) =~= old(log)@);
        },
    }
}

/// Appends an action message to a program's line, adding the line when missing.
pub fn action(log: &mut Vec<InstallLogEntry>, app: &str, message: String)
    ensures
        action_post(old(log)@, final(log)@, app@, message),
{
    match find_entry(log, app) {
        Some(i) => {
            let mut e = log.remove(i);
            e.actions.push(message);
            let ghost eg = e;
            log.insert(i, e);
            assert(log@ =~= old(log)@.update(i as int, eg));
        },
        None => {
            let mut actions = Vec::new();
            actions.push(message);
            log.push(InstallLogEntry { app: string_of(app), status: InstallStatus::Pending, actions });
            assert(log@.subrange(0, old(log)@.len() as int) =~= old(log)@);
            assert(actions@ =~= seq![message]);
        },
    }
}

/// Sets the status of a program's line only when the program has one.
pub fn update_status_if_present(log: &mut Vec<InstallLogEntry>, app: &str, status: InstallStatus)
    ensures
        match entry_index(old(log)@, app@) {
            Some(i) => replaced_line(
                old(log)@,
                final(log)@,
                i,
                InstallLogEntry {
                    app: old(log)@[i].app,
                    status,
                    actions: old(log)@[i].actions,
                },
            ),
            None => final(log)@ == old(log)@,
        },
{
    match find_entry(log, app) {
        Some(i) => {
            let mut e = log.remove(i);
            e.status = status;
            let ghost eg = e;
            log.insert(i, e);
            assert(log@ =~= old(log)@.update(i as int, eg));
        },
        None => {},
    }
}

} // verus!
