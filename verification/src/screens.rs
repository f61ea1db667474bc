//! What the screens show and change, apart from drawing: language labels,
//! selections, button labels and the progress summary.
use vstd::prelude::*;

use crate::assets::copy_asset;
use crate::github::{GithubRelease, GithubRepo, ReleaseAsset};
use crate::i18n::Translations;
use crate::install_flow::ProgramInstall;
use crate::state::{
    spec_needs_update, needs_update, AppState, InstallLogEntry, InstallOptions, InstallStatus,
    ListMode, ProgramEntry, Screen,
};
use crate::text::{
    char_replaced, concat2, decimal, ends_with, has_suffix, push_decimal, push_str, replace,
    replace_char, replaced, str_eq, string_from_chars, string_of, chars_of, views,
};

verus! {

// ───────────────────────────── languages ─────────────────────────────

/// The language file name without its `.default.toml` or `.toml` ending.
pub open spec fn language_stem(f: Seq<char>) -> Seq<char> {
    if has_suffix(f, ".default.toml"@) {
        f.subrange(0, f.len() - ".default.toml"@.len())
    } else if has_suffix(f, ".toml"@) {
        f.subrange(0, f.len() - ".toml"@.len())
    } else {
        f
    }
}

/// `CH_fr.toml` is shown as `CH-fr`, `EN_en.default.toml` as `EN-en`.
pub open spec fn spec_language_label(f: Seq<char>) -> Seq<char> {
    char_replaced(language_stem(f), '_', '-')
}

/// `s` without its last `n` characters.
fn drop_end(s: &str, n: usize) -> (r: String)
    requires
        n <= s@.len(),
    ensures
        r@ == s@.subrange(0, s@.len() - n),
{
    let cs = chars_of(s);
    string_from_chars(vstd::slice::slice_subrange(cs.as_slice(), 0, cs.len() - n))
}

/// The label of a language file.
pub fn language_label(file_name: &str) -> (r: String)
    ensures
        r@ == spec_language_label(file_name@),
{
    let stem = if ends_with(file_name, ".default.toml") {
        drop_end(file_name, ".default.toml".unicode_len())
    } else if ends_with(file_name, ".toml") {
        drop_end(file_name, ".toml".unicode_len())
    } else {
        string_of(file_name)
    };
    replace_char(stem.as_str(), '_', '-')
}

/// The languages compiled into the installer: file name, name and flag.
pub fn base_languages() -> (r: Vec<(&'static str, &'static str, &'static str)>)
    ensures
        r@.len() == 4,
        r@[0].0@ == "EN_en.default.toml"@,
        r@[1].0@ == "CH_fr.toml"@,
        r@[2].0@ == "CH_de.toml"@,
        r@[3].0@ == "CH_it.toml"@,
{
    let mut v = Vec::new();
    v.push(("EN_en.default.toml", "English", "🇬🇧"));
    v.push(("CH_fr.toml", "Français", "🇨🇭"));
    v.push(("CH_de.toml", "Deutsch", "🇨🇭"));
    v.push(("CH_it.toml", "Italiano", "🇨🇭"));
    v
}

/// The file names of the languages compiled into the installer.
pub open spec fn base_codes() -> Seq<Seq<char>> {
    seq!["EN_en.default.toml"@, "CH_fr.toml"@, "CH_de.toml"@, "CH_it.toml"@]
}

/// The languages offered besides the compiled-in ones, in their order.
pub open spec fn extra_language_views(langs: Seq<Seq<char>>) -> Seq<Seq<char>> {
    langs.filter(|l: Seq<char>| !base_codes().contains(l))
}

/// Whether a language file is one of the compiled-in languages.
pub fn is_base_language(l: &str) -> (r: bool)
    ensures
        r == base_codes().contains(l@),
{
    let base = base_languages();
    let mut i: usize = 0;
    while i < base.len()
        invariant
            i <= base.len(),
            base@.len() == 4,
            forall|k: int| 0 <= k < 4 ==> #[trigger] base@[k].0@ == base_codes()[k],
            forall|k: int| 0 <= k < i ==> base_codes()[k] != l@,
        decreases base.len() - i,
    {
        if str_eq(base[i].0, l) {
            assert(base_codes()[i as int] == l@);
            return true;
        }
        i = i + 1;
    }
    assert forall|k: int| 0 <= k < base_codes().len() implies base_codes()[k] != l@ by {}
    false
}

/// The languages found on GitHub that are not compiled in.
pub fn extra_languages(langs: &Vec<String>) -> (r: Vec<String>)
    ensures
        views(r@) == extra_language_views(views(langs@)),
{
    let mut out: Vec<String> = Vec::new();
    let mut i: usize = 0;
    while i < langs.len()
        invariant
            i <= langs.len(),
            views(out@) == extra_language_views(views(langs@).subrange(0, i as int)),
        decreases langs.len() - i,
    {
        let l = langs[i].as_str();
        let ghost pre = views(langs@).subrange(0, i as int);
        proof {
            assert(views(langs@).subrange(0, i + 1) =~= pre.push(langs@[i as int]@));
            pre.lemma_filter_push(langs@[i as int]@, |l: Seq<char>| !base_codes().contains(l));
        }
        if !is_base_language(l) {
            let ghost before = out@;
            out.push(string_of(l));
            assert(views(out@) =~= views(before).push(l@));
        }
        i = i + 1;
    }
    assert(views(langs@).subrange(0, langs@.len() as int) =~= views(langs@));
    out
}

/// The selected language, or the first common one when the selected one is
/// not common to every program.
pub open spec fn spec_effective_language(selected: Seq<char>, common: Seq<Seq<char>>) -> Seq<char> {
    if common.len() > 0 && !common.contains(selected) {
        common[0]
    } else {
        selected
    }
}

/// Makes the selected language one that every program offers.
pub fn ensure_common_language(options: &mut InstallOptions, common: &Vec<String>)
    ensures
        final(options).selected_language@ == spec_effective_language(
            old(options).selected_language@,
            views(common@),
        ),
        final(options).desktop_shortcut == old(options).desktop_shortcut,
        final(options).quicklaunch_shortcut == old(options).quicklaunch_shortcut,
{
    if common.len() == 0 {
        return;
    }
    let mut i: usize = 0;
    while i < common.len()
        invariant
            i <= common.len(),
            forall|k: int| 0 <= k < i ==> #[trigger] common@[k]@ != options.selected_language@,
        decreases common.len() - i,
    {
        if str_eq(common[i].as_str(), options.selected_language.as_str()) {
            assert(views(common@)[i as int] == options.selected_language@);
            return;
        }
        i = i + 1;
    }
    assert forall|k: int| 0 <= k < views(common@).len() implies views(common@)[k]
        != options.selected_language@ by {
        assert(common@[k]@ != options.selected_language@);
    }
    options.selected_language = string_of(common[0].as_str());
}

// ───────────────────────────── program selection ─────────────────────────────

/// `new` is `programs` with `selected` set to `value` wherever `pick` holds.
pub open spec fn selection_set(
    old: Seq<ProgramEntry>,
    new: Seq<ProgramEntry>,
    value: bool,
    only_installed: bool,
) -> bool {
    &&& new.len() == old.len()
    &&& forall|i: int|
        0 <= i < old.len() ==> #[trigger] new[i] == if !only_installed
            || old[i].installed_version is Some {
            ProgramEntry { selected: value, ..old[i] }
        } else {
            old[i]
        }
}

/// "Select all" / "Deselect all": every program, or only the installed ones.
pub fn set_selection(programs: &mut Vec<ProgramEntry>, value: bool, only_installed: bool)
    ensures
        selection_set(old(programs)@, final(programs)@, value, only_installed),
{
    let mut i: usize = 0;
    while i < programs.len()
        invariant
            i <= programs.len(),
            programs@.len() == old(programs)@.len(),
            forall|k: int|
                0 <= k < i ==> #[trigger] programs@[k] == if !only_installed
                    || old(programs)@[k].installed_version is Some {
                    ProgramEntry { selected: value, ..old(programs)@[k] }
                } else {
                    old(programs)@[k]
                },
            forall|k: int| i <= k < programs@.len() ==> #[trigger] programs@[k] == old(programs)@[k],
        decreases programs.len() - i,
    {
        if !only_installed || programs[i].installed_version.is_some() {
            let mut p = programs.remove(i);
            p.selected = value;
            programs.insert(i, p);
        }
        i = i + 1;
    }
}

/// Number of programs of `s` for which `f` holds.
pub open spec fn count_where(s: Seq<ProgramEntry>, f: spec_fn(ProgramEntry) -> bool) -> nat
    decreases s.len(),
{
    if s.len() == 0 {
        0
    } else {
        count_where(s.subrange(0, s.len() - 1), f) + if f(s[s.len() - 1]) {
            1nat
        } else {
            0nat
        }
    }
}

/// Selected programs.
pub open spec fn is_selected(p: ProgramEntry) -> bool {
    p.selected
}

/// Selected programs that are installed.
pub open spec fn is_selected_installed(p: ProgramEntry) -> bool {
    p.selected && p.installed_version is Some
}

proof fn lemma_count_bound(s: Seq<ProgramEntry>, f: spec_fn(ProgramEntry) -> bool)
    ensures
        count_where(s, f) <= s.len(),
    decreases s.len(),
{
    if s.len() > 0 {
        lemma_count_bound(s.subrange(0, s.len() - 1), f);
    }
}

/// How many programs are selected (`only_installed`: and installed).
pub fn selected_count(programs: &Vec<ProgramEntry>, only_installed: bool) -> (n: usize)
    ensures
        !only_installed ==> n == count_where(programs@, |p: ProgramEntry| is_selected(p)),
        only_installed ==> n == count_where(programs@, |p: ProgramEntry| is_selected_installed(p)),
{
    let ghost f = if only_installed {
        |p: ProgramEntry| is_selected_installed(p)
    } else {
        |p: ProgramEntry| is_selected(p)
    };
    let mut n: usize = 0;
    let mut i: usize = 0;
    while i < programs.len()
        invariant
            i <= programs.len(),
            f == (if only_installed {
                |p: ProgramEntry| is_selected_installed(p)
            } else {
                |p: ProgramEntry| is_selected(p)
            }),
            n == count_where(programs@.subrange(0, i as int), f),
        decreases programs.len() - i,
    {
        let ghost pre = programs@.subrange(0, i + 1);
        assert(pre.subrange(0, i as int) =~= programs@.subrange(0, i as int));
        proof {
            lemma_count_bound(programs@.subrange(0, i as int), f);
        }
        let p = &programs[i];
        if p.selected && (!only_installed || p.installed_version.is_some()) {
            n = n + 1;
        }
        i = i + 1;
    }
    assert(programs@.subrange(0, programs@.len() as int) =~= programs@);
    n
}

/// `Installer <n> programme(s)`, or why nothing can be installed.
pub open spec fn spec_install_label(selected: nat, languages: nat) -> Seq<char> {
    if selected == 0 {
        "Aucun programme sélectionné"@
    } else if languages == 0 {
        "Aucune langue commune"@
    } else {
        "Installer "@ + decimal(selected) + " programme(s)"@
    }
}

/// The install button: whether it is enabled, and its label. Installing
/// needs a selected program and a language common to all programs.
pub fn install_button(programs: &Vec<ProgramEntry>, common_languages: &Vec<String>) -> (r: (
    bool,
    String,
))
    ensures
        r.0 == (count_where(programs@, |p: ProgramEntry| is_selected(p)) > 0
            && common_languages@.len() > 0),
        r.1@ == spec_install_label(
            count_where(programs@, |p: ProgramEntry| is_selected(p)),
            common_languages@.len(),
        ),
{
    let n = selected_count(programs, false);
    let can = n > 0 && common_languages.len() > 0;
    let label = if n == 0 {
        string_of("Aucun programme sélectionné")
    } else if common_languages.len() == 0 {
        string_of("Aucune langue commune")
    } else {
        let mut l = string_of("Installer ");
        push_decimal(&mut l, n as u64);
        push_str(&mut l, " programme(s)");
        l
    };
    (can, label)
}

/// `Désinstaller <n> programme(s)`, or that nothing is selected.
pub open spec fn spec_uninstall_label(selected: nat) -> Seq<char> {
    if selected == 0 {
        "Aucun programme sélectionné"@
    } else {
        "Désinstaller "@ + decimal(selected) + " programme(s)"@
    }
}

/// The uninstall button: enabled when an installed program is selected.
pub fn uninstall_button(programs: &Vec<ProgramEntry>) -> (r: (bool, String))
    ensures
        r.0 == (count_where(programs@, |p: ProgramEntry| is_selected_installed(p)) > 0),
        r.1@ == spec_uninstall_label(
            count_where(programs@, |p: ProgramEntry| is_selected_installed(p)),
        ),
{
    let n = selected_count(programs, true);
    let label = if n == 0 {
        string_of("Aucun programme sélectionné")
    } else {
        let mut l = string_of("Désinstaller ");
        push_decimal(&mut l, n as u64);
        push_str(&mut l, " programme(s)");
        l
    };
    (n > 0, label)
}

/// The version shown beside a program: `→ v<tag>` for an update, `v<tag>`
/// for a program not installed, nothing otherwise.
pub open spec fn spec_release_label(p: ProgramEntry) -> Seq<char> {
    match p.release {
        Some(rel) => if p.needs_update {
            "→ v"@ + rel.tag_name@
        } else if p.installed_version is None {
            "v"@ + rel.tag_name@
        } else {
            Seq::empty()
        },
        None => Seq::empty(),
    }
}

/// The release label of a program.
pub fn release_label(p: &ProgramEntry) -> (r: String)
    ensures
        r@ == spec_release_label(*p),
{
    match &p.release {
        Some(rel) => {
            if p.needs_update {
                concat2("→ v", rel.tag_name.as_str())
            } else if p.installed_version.is_none() {
                concat2("v", rel.tag_name.as_str())
            } else {
                String::new()
            }
        },
        None => String::new(),
    }
}

// ───────────────────────────── loading ─────────────────────────────

/// Two releases with the same tag, assets and flags.
pub open spec fn same_release(a: GithubRelease, b: GithubRelease) -> bool {
    a.tag_name == b.tag_name && a.assets@ == b.assets@ && a.draft == b.draft && a.prerelease
        == b.prerelease
}

/// Two optional releases that are both absent or the same release.
pub open spec fn same_release_opt(a: Option<GithubRelease>, b: Option<GithubRelease>) -> bool {
    match (a, b) {
        (Some(x), Some(y)) => same_release(x, y),
        (None, None) => true,
        _ => false,
    }
}

/// A copy of a release.
pub fn copy_release(r: &GithubRelease) -> (c: GithubRelease)
    ensures
        same_release(c, *r),
{
    let mut assets: Vec<ReleaseAsset> = Vec::new();
    let mut i: usize = 0;
    while i < r.assets.len()
        invariant
            i <= r.assets.len(),
            assets@ == r.assets@.subrange(0, i as int),
        decreases r.assets.len() - i,
    {
        assets.push(copy_asset(&r.assets[i]));
        assert(assets@ =~= r.assets@.subrange(0, i + 1));
        i = i + 1;
    }
    assert(assets@ =~= r.assets@);
    GithubRelease {
        tag_name: r.tag_name.clone(),
        assets,
        draft: r.draft,
        prerelease: r.prerelease,
    }
}

/// A program as the list first shows it: selected, with its installed
/// version and whether it needs an update.
pub fn program_entry(
    repo: GithubRepo,
    release: Option<GithubRelease>,
    languages: Vec<String>,
    lang_folder: String,
    installed_version: Option<String>,
) -> (p: ProgramEntry)
    ensures
        p.repo == repo,
        p.release == release,
        p.languages == languages,
        p.lang_folder == lang_folder,
        p.selected,
        p.installed_version == installed_version,
        p.needs_update == spec_needs_update(installed_version, release),
{
    let needs = needs_update(&installed_version, &release);
    ProgramEntry {
        repo,
        release,
        languages,
        lang_folder,
        selected: true,
        installed_version,
        needs_update: needs,
    }
}

/// The selected programs, in order.
pub open spec fn selected_programs(programs: Seq<ProgramEntry>) -> Seq<ProgramEntry> {
    programs.filter(|p: ProgramEntry| p.selected)
}

/// What the installation needs of each selected program: its name, release,
/// branch, the chosen language file and the program's language folder.
pub open spec fn is_install_job(j: ProgramInstall, p: ProgramEntry, language: Seq<char>) -> bool {
    &&& j.name@ == p.repo.name@
    &&& same_release_opt(j.release, p.release)
    &&& j.branch@ == p.repo.default_branch@
    &&& j.language@ == language
    &&& j.lang_folder@ == p.lang_folder@
}

/// The installation jobs for the selected programs.
pub fn programs_to_install(programs: &Vec<ProgramEntry>, options: &InstallOptions) -> (r: Vec<
    ProgramInstall,
>)
    ensures
        r@.len() == selected_programs(programs@).len(),
        forall|k: int|
            0 <= k < r@.len() ==> is_install_job(
                #[trigger] r@[k],
                selected_programs(programs@)[k],
                options.selected_language@,
            ),
{
    let mut out: Vec<ProgramInstall> = Vec::new();
    let mut i: usize = 0;
    while i < programs.len()
        invariant
            i <= programs.len(),
            out@.len() == selected_programs(programs@.subrange(0, i as int)).len(),
            forall|k: int|
                0 <= k < out@.len() ==> is_install_job(
                    #[trigger] out@[k],
                    selected_programs(programs@.subrange(0, i as int))[k],
                    options.selected_language@,
                ),
        decreases programs.len() - i,
    {
        let ghost pre = programs@.subrange(0, i as int);
        proof {
            assert(programs@.subrange(0, i + 1) =~= pre.push(programs@[i as int]));
            pre.lemma_filter_push(programs@[i as int], |p: ProgramEntry| p.selected);
        }
        let p = &programs[i];
        if p.selected {
            let release = match &p.release {
                Some(r) => Some(copy_release(r)),
                None => None,
            };
            out.push(
                ProgramInstall {
                    name: p.repo.name.clone(),
                    release,
                    branch: p.repo.default_branch.clone(),
                    language: options.selected_language.clone(),
                    lang_folder: p.lang_folder.clone(),
                },
            );
        }
        i = i + 1;
    }
    assert(programs@.subrange(0, programs@.len() as int) =~= programs@);
    out
}

/// The names of the installed programs that are selected, in order.
pub fn programs_to_uninstall(programs: &Vec<ProgramEntry>) -> (r: Vec<String>)
    ensures
        views(r@) == programs@.filter(|p: ProgramEntry| is_selected_installed(p)).map_values(
            |p: ProgramEntry| p.repo.name@,
        ),
{
    let mut out: Vec<String> = Vec::new();
    let mut i: usize = 0;
    while i < programs.len()
        invariant
            i <= programs.len(),
            views(out@) == programs@.subrange(0, i as int).filter(
                |p: ProgramEntry| is_selected_installed(p),
            ).map_values(|p: ProgramEntry| p.repo.name@),
        decreases programs.len() - i,
    {
        let ghost pre = programs@.subrange(0, i as int);
        let ghost f = |p: ProgramEntry| is_selected_installed(p);
        proof {
            assert(programs@.subrange(0, i + 1) =~= pre.push(programs@[i as int]));
            pre.lemma_filter_push(programs@[i as int], f);
        }
        let p = &programs[i];
        if p.selected && p.installed_version.is_some() {
            let ghost before = out@;
            out.push(p.repo.name.clone());
            assert(views(out@) =~= views(before).push(p.repo.name@));
            assert(pre.filter(f).push(programs@[i as int]).map_values(|q: ProgramEntry| q.repo.name@)
                =~= pre.filter(f).map_values(|q: ProgramEntry| q.repo.name@).push(p.repo.name@));
        }
        i = i + 1;
    }
    assert(programs@.subrange(0, programs@.len() as int) =~= programs@);
    out
}

// ───────────────────────────── progress ─────────────────────────────

/// A program is finished when it is done or failed.
pub open spec fn is_finished(s: InstallStatus) -> bool {
    s is Done || s is Error
}

/// A program is being worked on when it is downloading or installing.
pub open spec fn is_active(s: InstallStatus) -> bool {
    s is Downloading || s is Installing
}

/// Number of finished lines.
pub open spec fn finished_count(log: Seq<InstallLogEntry>) -> nat
    decreases log.len(),
{
    if log.len() == 0 {
        0
    } else {
        finished_count(log.subrange(0, log.len() - 1)) + if is_finished(log[log.len() - 1].status) {
            1nat
        } else {
            0nat
        }
    }
}

proof fn lemma_finished_count_bound(log: Seq<InstallLogEntry>)
    ensures
        finished_count(log) <= log.len(),
        finished_count(log) == log.len() <==> forall|i: int|
            0 <= i < log.len() ==> is_finished(#[trigger] log[i].status),
    decreases log.len(),
{
    if log.len() > 0 {
        let pre = log.subrange(0, log.len() - 1);
        lemma_finished_count_bound(pre);
        assert forall|i: int| 0 <= i < pre.len() implies #[trigger] pre[i] == log[i] by {}
        if finished_count(log) == log.len() {
            assert forall|i: int| 0 <= i < log.len() implies is_finished(#[trigger] log[i].status) by {
                if i < pre.len() {
                    assert(is_finished(pre[i].status));
                }
            }
        }
        if forall|i: int| 0 <= i < log.len() ==> is_finished(#[trigger] log[i].status) {
            assert forall|i: int| 0 <= i < pre.len() implies is_finished(#[trigger] pre[i].status) by {
                assert(is_finished(log[i].status));
            }
            assert(is_finished(log[log.len() - 1].status));
        }
    }
}

/// How many programs are finished.
pub fn completed_count(log: &Vec<InstallLogEntry>) -> (n: usize)
    ensures
        n == finished_count(log@),
{
    let mut n: usize = 0;
    let mut i: usize = 0;
    while i < log.len()
        invariant
            i <= log.len(),
            n == finished_count(log@.subrange(0, i as int)),
        decreases log.len() - i,
    {
        let ghost pre = log@.subrange(0, i + 1);
        assert(pre.subrange(0, i as int) =~= log@.subrange(0, i as int));
        proof {
            lemma_finished_count_bound(log@.subrange(0, i as int));
        }
        match &log[i].status {
            InstallStatus::Done(_) | InstallStatus::Error(_) => {
                n = n + 1;
            },
            _ => {},
        }
        i = i + 1;
    }
    assert(log@.subrange(0, log@.len() as int) =~= log@);
    n
}

/// The operation is over when the log has lines and every one is finished.
pub fn all_done(log: &Vec<InstallLogEntry>) -> (r: bool)
    ensures
        r == (log@.len() > 0 && forall|i: int|
            0 <= i < log@.len() ==> is_finished(#[trigger] log@[i].status)),
{
    proof {
        lemma_finished_count_bound(log@);
    }
    log.len() > 0 && completed_count(log) == log.len()
}

/// The title of the progress screen.
pub open spec fn spec_progress_title(t: Translations, done: bool, uninstall: bool) -> &'static str {
    if done {
        if uninstall {
            t.uninstall_done
        } else {
            t.install_done
        }
    } else if uninstall {
        t.uninstalling
    } else {
        t.installing
    }
}

/// The title of the progress screen.
pub fn progress_title(t: &Translations, done: bool, uninstall: bool) -> (r: &'static str)
    ensures
        r == spec_progress_title(*t, done, uninstall),
{
    if done {
        if uninstall {
            t.uninstall_done
        } else {
            t.install_done
        }
    } else if uninstall {
        t.uninstalling
    } else {
        t.installing
    }
}

/// `<n>/<total> program(s) processed`, in the chosen language.
pub fn progress_label(t: &Translations, log: &Vec<InstallLogEntry>) -> (r: String)
    ensures
        r@ == replaced(
            replaced(t.n_programs_done@, "{n}"@, decimal(finished_count(log@))),
            "{total}"@,
            decimal(log@.len() as nat),
        ),
{
    let n = completed_count(log);
    let n_text = crate::text::decimal_string(n as u64);
    let total_text = crate::text::decimal_string(log.len() as u64);
    let l = replace(t.n_programs_done, "{n}", n_text.as_str());
    replace(l.as_str(), "{total}", total_text.as_str())
}

/// What a log line shows after its icon.
pub open spec fn spec_entry_message(t: Translations, e: InstallLogEntry) -> Seq<char> {
    match e.status {
        InstallStatus::Pending => e.app@,
        InstallStatus::Downloading(s) => s@,
        InstallStatus::Installing(s) => s@,
        InstallStatus::Done(s) => s@ + " — OK"@,
        InstallStatus::Error(m) => replaced(t.status_error@, "{msg}"@, m@),
    }
}

/// The text of a log line.
pub fn entry_message(t: &Translations, e: &InstallLogEntry) -> (r: String)
    ensures
        r@ == spec_entry_message(*t, *e),
{
    match &e.status {
        InstallStatus::Pending => e.app.clone(),
        InstallStatus::Downloading(s) => s.clone(),
        InstallStatus::Installing(s) => s.clone(),
        InstallStatus::Done(s) => concat2(s.as_str(), " — OK"),
        InstallStatus::Error(m) => replace(t.status_error, "{msg}", m.as_str()),
    }
}

/// The actions shown for a program at work: the latest, then up to six
/// before it, most recent first.
pub open spec fn spec_recent_actions(actions: Seq<Seq<char>>) -> Seq<Seq<char>> {
    let n = actions.len();
    let k = if n > 7 {
        7
    } else {
        n
    };
    Seq::new(k, |i: int| actions[n - 1 - i])
}

/// The recent actions of a program, most recent first.
pub fn recent_actions(actions: &Vec<String>) -> (r: Vec<String>)
    ensures
        views(r@) == spec_recent_actions(views(actions@)),
{
    let n = actions.len();
    let k: usize = if n > 7 {
        7
    } else {
        n
    };
    let mut out: Vec<String> = Vec::new();
    let mut i: usize = 0;
    while i < k
        invariant
            k <= n == actions@.len(),
            i <= k,
            k == (if n > 7 {
                7
            } else {
                n
            }),
            views(out@) =~= spec_recent_actions(views(actions@)).subrange(0, i as int),
        decreases k - i,
    {
        let ghost before = out@;
        out.push(actions[n - 1 - i].clone());
        assert(views(out@) =~= views(before).push(actions@[n - 1 - i]@));
        i = i + 1;
    }
    out
}

// ───────────────────────────── common languages ─────────────────────────────

/// Every program offers the language.
pub open spec fn offered_by_all(programs: Seq<ProgramEntry>, l: Seq<char>) -> bool {
    forall|i: int| 0 <= i < programs.len() ==> views(#[trigger] programs[i].languages@).contains(l)
}

/// The languages that every program offers, in the order of the first
/// program's list; none without programs.
pub open spec fn spec_common_languages(programs: Seq<ProgramEntry>) -> Seq<Seq<char>> {
    if programs.len() == 0 {
        Seq::empty()
    } else {
        views(programs[0].languages@).filter(|l: Seq<char>| offered_by_all(programs, l))
    }
}

/// Whether a list of strings holds `l`.
pub fn contains_string(list: &Vec<String>, l: &str) -> (r: bool)
    ensures
        r == views(list@).contains(l@),
{
    let mut i: usize = 0;
    while i < list.len()
        invariant
            i <= list.len(),
            forall|k: int| 0 <= k < i ==> #[trigger] list@[k]@ != l@,
        decreases list.len() - i,
    {
        if str_eq(list[i].as_str(), l) {
            assert(views(list@)[i as int] == l@);
            return true;
        }
        i = i + 1;
    }
    assert forall|k: int| 0 <= k < views(list@).len() implies views(list@)[k] != l@ by {
        assert(list@[k]@ != l@);
    }
    false
}

/// The languages common to all programs, the only ones the list offers.
pub fn common_languages(programs: &Vec<ProgramEntry>) -> (r: Vec<String>)
    ensures
        views(r@) == spec_common_languages(programs@),
{
    let mut out: Vec<String> = Vec::new();
    if programs.len() == 0 {
        assert(views(out@) =~= Seq::<Seq<char>>::empty());
        return out;
    }
    let first = &programs[0].languages;
    let ghost f = |l: Seq<char>| offered_by_all(programs@, l);
    let mut i: usize = 0;
    while i < first.len()
        invariant
            i <= first.len(),
            programs@.len() > 0,
            first@ == programs@[0].languages@,
            f == (|l: Seq<char>| offered_by_all(programs@, l)),
            views(out@) == views(first@).subrange(0, i as int).filter(f),
        decreases first.len() - i,
    {
        let l = first[i].as_str();
        let ghost pre = views(first@).subrange(0, i as int);
        proof {
            assert(views(first@).subrange(0, i + 1) =~= pre.push(l@));
            pre.lemma_filter_push(l@, f);
        }
        let mut all = true;
        let mut j: usize = 0;
        while j < programs.len()
            invariant
                j <= programs.len(),
                all == forall|k: int|
                    0 <= k < j ==> views(#[trigger] programs@[k].languages@).contains(l@),
            decreases programs.len() - j,
        {
            if !contains_string(&programs[j].languages, l) {
                all = false;
            }
            j = j + 1;
        }
        if all {
            let ghost before = out@;
            out.push(string_of(l));
            assert(views(out@) =~= views(before).push(l@));
        }
        i = i + 1;
    }
    assert(views(first@).subrange(0, first@.len() as int) =~= views(first@));
    out
}

/// Every common language is offered by every program.
pub proof fn law_common_languages_offered(programs: Seq<ProgramEntry>, i: int, j: int)
    requires
        0 <= i < spec_common_languages(programs).len(),
        0 <= j < programs.len(),
    ensures
        views(programs[j].languages@).contains(spec_common_languages(programs)[i]),
{
    let f = |l: Seq<char>| offered_by_all(programs, l);
    let s = views(programs[0].languages@);
    s.lemma_filter_pred(f, i);
}

/// Once the selected language has been made common, the installation uses
/// a language that every program offers, whenever some language is common
/// to all of them.
pub proof fn law_chosen_language_offered_by_all(
    programs: Seq<ProgramEntry>,
    selected: Seq<char>,
    j: int,
)
    requires
        spec_common_languages(programs).len() > 0,
        0 <= j < programs.len(),
    ensures
        views(programs[j].languages@).contains(
            spec_effective_language(selected, spec_common_languages(programs)),
        ),
{
    let common = spec_common_languages(programs);
    let l = spec_effective_language(selected, common);
    let i: int = if common.contains(selected) {
        choose|i: int| 0 <= i < common.len() && common[i] == selected
    } else {
        0
    };
    assert(common[i] == l);
    law_common_languages_offered(programs, i, j);
}

// ───────────────────────────── screen transitions ─────────────────────────────

/// The list has loaded: on to the licence, or stay on the loading screen
/// with the error. Nothing else changes.
pub fn finish_loading(state: &mut AppState, result: Result<Vec<ProgramEntry>, String>)
    ensures
        match result {
            Ok(programs) => *final(state) == (AppState {
                programs,
                screen: Screen::Eula,
                ..*old(state)
            }),
            Err(e) => *final(state) == (AppState {
                loading_error: Some(e),
                screen: Screen::Loading,
                ..*old(state)
            }),
        },
{
    match result {
        Ok(programs) => {
            state.programs = programs;
            state.screen = Screen::Eula;
        },
        Err(e) => {
            state.loading_error = Some(e);
            state.screen = Screen::Loading;
        },
    }
}

/// The licence screen proceeds to the program list only once accepted.
/// Nothing else changes.
pub fn accept_eula(state: &mut AppState, proceed: bool)
    ensures
        *final(state) == (AppState {
            screen: if proceed && old(state).eula_accepted {
                Screen::ProgramList
            } else {
                old(state).screen
            },
            ..*old(state)
        }),
{
    if proceed && state.eula_accepted {
        state.screen = Screen::ProgramList;
    }
}

/// Starting an installation or an uninstallation: the progress screen,
/// for the right kind of operation. Nothing else changes.
pub fn start_operation(state: &mut AppState, uninstall: bool)
    ensures
        *final(state) == (AppState { screen: Screen::Installing, is_uninstall: uninstall, ..*old(state) }),
{
    state.screen = Screen::Installing;
    state.is_uninstall = uninstall;
}

/// Switching the tab of the program list. Nothing else changes.
pub fn set_list_mode(state: &mut AppState, mode: ListMode)
    ensures
        *final(state) == (AppState { list_mode: mode, ..*old(state) }),
{
    state.list_mode = mode;
}

/// A fresh progress log: one pending line per program, in order.
pub fn pending_log(names: &Vec<String>) -> (r: Vec<InstallLogEntry>)
    ensures
        r@.len() == names@.len(),
        forall|i: int|
            0 <= i < r@.len() ==> (#[trigger] r@[i]).app@ == names@[i]@ && r@[i].status
                is Pending && r@[i].actions@.len() == 0,
{
    let mut log: Vec<InstallLogEntry> = Vec::new();
    let mut i: usize = 0;
    while i < names.len()
        invariant
            i <= names.len(),
            log@.len() == i,
            forall|k: int|
                0 <= k < i ==> (#[trigger] log@[k]).app@ == names@[k]@ && log@[k].status
                    is Pending && log@[k].actions@.len() == 0,
        decreases names.len() - i,
    {
        log.push(
            InstallLogEntry {
                app: names[i].clone(),
                status: InstallStatus::Pending,
                actions: Vec::new(),
            },
        );
        i = i + 1;
    }
    log
}

} // verus!
