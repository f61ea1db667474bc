use suite_install::github::{GithubRelease, GithubRepo};
use suite_install::i18n::get;
use suite_install::paths::{appdata_dir, install_record_path, log_path, program_files_dir, program_files_root, temp_dir};
use suite_install::screens::{
    all_done, common_languages, completed_count, ensure_common_language, entry_message,
    extra_languages, finish_loading, install_button, language_label, pending_log, program_entry,
    programs_to_install, programs_to_uninstall, progress_label, progress_title, recent_actions,
    release_label, set_selection, uninstall_button, accept_eula, start_operation,
};
use suite_install::state::{needs_update, AppState, InstallLogEntry, InstallOptions, InstallStatus, ProgramEntry, Screen};

fn entry(name: &str, installed: Option<&str>, tag: Option<&str>, langs: &[&str]) -> ProgramEntry {
    let repo = GithubRepo { name: name.into(), description: None, html_url: String::new(), default_branch: "main".into() };
    let release = tag.map(|t| GithubRelease { tag_name: t.into(), assets: vec![], draft: false, prerelease: false });
    program_entry(repo, release, langs.iter().map(|s| s.to_string()).collect(), "langue".into(), installed.map(|s| s.to_string()))
}

fn line(app: &str, status: InstallStatus) -> InstallLogEntry {
    InstallLogEntry { app: app.into(), status, actions: vec![] }
}

#[test]
fn language_labels() {
    assert_eq!(language_label("EN_en.default.toml"), "EN-en");
    assert_eq!(language_label("CH_fr.toml"), "CH-fr");
    assert_eq!(language_label("pt_BR"), "pt-BR");
}

#[test]
fn extra_languages_exclude_the_compiled_ones() {
    let langs = vec!["CH_fr.toml".to_string(), "ES_es.toml".to_string(), "EN_en.default.toml".to_string(), "PT_pt.toml".to_string()];
    assert_eq!(extra_languages(&langs), vec!["ES_es.toml", "PT_pt.toml"]);
}

#[test]
fn common_languages_are_offered_by_every_program() {
    let ps = vec![
        entry("a", None, None, &["CH_de.toml", "CH_fr.toml", "EN_en.default.toml"]),
        entry("b", None, None, &["CH_fr.toml", "EN_en.default.toml"]),
        entry("c", None, None, &["EN_en.default.toml", "CH_fr.toml", "IT.toml"]),
    ];
    assert_eq!(common_languages(&ps), vec!["CH_fr.toml", "EN_en.default.toml"]);
    assert!(common_languages(&vec![]).is_empty());
}

#[test]
fn the_selected_language_must_be_common() {
    let mut o = InstallOptions::default();
    ensure_common_language(&mut o, &vec!["CH_fr.toml".to_string()]);
    assert_eq!(o.selected_language, "CH_fr.toml");
    let mut o = InstallOptions::default();
    ensure_common_language(&mut o, &vec!["CH_fr.toml".to_string(), "EN_en.default.toml".to_string()]);
    assert_eq!(o.selected_language, "EN_en.default.toml");
    let mut o = InstallOptions::default();
    ensure_common_language(&mut o, &vec![]);
    assert_eq!(o.selected_language, "EN_en.default.toml");
    assert!(o.desktop_shortcut && !o.quicklaunch_shortcut);
}

#[test]
fn updates_are_detected() {
    let p = entry("a", Some("v1"), Some("v2"), &[]);
    assert!(p.needs_update && p.selected);
    assert_eq!(release_label(&p), "→ vv2");
    let p = entry("a", Some("v2"), Some("v2"), &[]);
    assert!(!p.needs_update);
    assert_eq!(release_label(&p), "");
    let p = entry("a", None, Some("v2"), &[]);
    assert_eq!(release_label(&p), "vv2");
    assert!(!needs_update(&None, &None));
}

#[test]
fn buttons_and_selection() {
    let mut ps = vec![entry("a", Some("v1"), None, &[]), entry("b", None, None, &[])];
    let common = vec!["EN_en.default.toml".to_string()];
    assert_eq!(install_button(&ps, &common), (true, "Installer 2 programme(s)".to_string()));
    assert_eq!(install_button(&ps, &vec![]), (false, "Aucune langue commune".to_string()));
    assert_eq!(uninstall_button(&ps), (true, "Désinstaller 1 programme(s)".to_string()));
    set_selection(&mut ps, false, true);
    assert!(!ps[0].selected && ps[1].selected);
    assert_eq!(uninstall_button(&ps), (false, "Aucun programme sélectionné".to_string()));
    set_selection(&mut ps, false, false);
    assert_eq!(install_button(&ps, &common), (false, "Aucun programme sélectionné".to_string()));
    set_selection(&mut ps, true, false);
    let jobs = programs_to_install(&ps, &InstallOptions::default());
    assert_eq!(jobs.len(), 2);
    assert_eq!(jobs[1].name, "b");
    assert_eq!(jobs[1].language, "EN_en.default.toml");
    assert_eq!(programs_to_uninstall(&ps), vec!["a"]);
}

#[test]
fn progress_summary() {
    let t = get("EN_en.default.toml");
    let log = vec![line("a", InstallStatus::Done("a".into())), line("b", InstallStatus::Error("boom".into())), line("c", InstallStatus::Downloading("c (1 KB)".into()))];
    assert_eq!(completed_count(&log), 2);
    assert!(!all_done(&log));
    assert!(all_done(&log[..2].to_vec()));
    assert!(!all_done(&vec![]));
    assert_eq!(progress_label(&t, &log), "2/3 program(s) processed");
    assert_eq!(entry_message(&t, &log[0]), "a — OK");
    assert_eq!(entry_message(&t, &log[1]), "ERROR: boom");
    assert_eq!(entry_message(&t, &line("p", InstallStatus::Pending)), "p");
    assert_eq!(progress_title(&t, true, true), "Uninstallation complete ✓");
    assert_eq!(progress_title(&t, false, false), "Installing…");
    let actions: Vec<String> = (1..=9).map(|i| i.to_string()).collect();
    assert_eq!(recent_actions(&actions), vec!["9", "8", "7", "6", "5", "4", "3"]);
    assert_eq!(recent_actions(&vec!["x".to_string()]), vec!["x"]);
    let fresh = pending_log(&vec!["a".to_string(), "b".to_string()]);
    assert_eq!(fresh.len(), 2);
    assert!(matches!(fresh[1].status, InstallStatus::Pending));
}

#[test]
fn screens_follow_the_loading_and_licence() {
    let mut s = AppState::default();
    assert_eq!(s.screen, Screen::Loading);
    finish_loading(&mut s, Err("offline".into()));
    assert_eq!(s.screen, Screen::Loading);
    assert_eq!(s.loading_error.as_deref(), Some("offline"));
    finish_loading(&mut s, Ok(vec![entry("a", None, None, &[])]));
    assert_eq!(s.screen, Screen::Eula);
    accept_eula(&mut s, true);
    assert_eq!(s.screen, Screen::Eula);
    s.eula_accepted = true;
    accept_eula(&mut s, true);
    assert_eq!(s.screen, Screen::ProgramList);
    start_operation(&mut s, true);
    assert_eq!(s.screen, Screen::Installing);
    assert!(s.is_uninstall);
}

#[test]
fn install_layout() {
    let p = program_files_dir(None, "notes");
    assert_eq!(p.base, "C:\\Users\\Default\\AppData\\Local");
    assert_eq!(p.segments, vec!["Programs", "rusty-suite", "notes"]);
    let p = appdata_dir(Some("/home/u/.config".into()), "notes");
    assert_eq!(p.base, "/home/u/.config");
    assert_eq!(p.segments, vec!["rusty-suite", "notes"]);
    let p = temp_dir(None, "notes");
    assert_eq!(p.base, "C:\\Users\\Default\\AppData\\Roaming");
    assert_eq!(p.segments, vec!["rusty-suite", ".tmp", "notes"]);
    assert_eq!(install_record_path(None, "notes").segments, vec!["rusty-suite", "notes", "install.json"]);
    assert_eq!(log_path(None, "20240427_153045").segments, vec!["rusty-suite", "suite-install-logs", "suite-install-20240427_153045.log"]);
    assert_eq!(program_files_root(None).segments, vec!["Programs"]);
}
