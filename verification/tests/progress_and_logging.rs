use suite_install::github::GithubRepo;
use suite_install::i18n::get;
use suite_install::install_flow::{
    precheck_step, uninstall_step, LogOp, PrecheckCommand, PrecheckStep, ProgramInstall, Removal,
    UninstallCommand, UninstallDirsText, UninstallStep,
};
use suite_install::logger::{log_line, session_header};
use suite_install::progress::{apply_op, apply_ops};
use suite_install::runner::{
    check_digest, compare_digests, join_paths, language_copy_step, LanguageCopyAction, LanguageCopyStep,
};
use suite_install::screens::{accept_eula, pending_log, finish_loading, program_entry, set_list_mode, start_operation};
use suite_install::state::{AppState, InstallLogEntry, InstallStatus, ListMode, Screen};

fn line(app: &str, status: InstallStatus) -> InstallLogEntry {
    InstallLogEntry { app: app.into(), status, actions: vec![] }
}

fn is_done(s: &InstallStatus, text: &str) -> bool {
    matches!(s, InstallStatus::Done(x) if x == text)
}

#[test]
fn changes_are_applied_to_the_log() {
    let mut log = vec![line("notes", InstallStatus::Pending)];
    apply_op(&mut log, LogOp::SizedAction { app: "notes".into(), template: "Size: {size}".into(), bytes: 2048 }, "2.0 KB");
    assert_eq!(log[0].actions, vec!["Size: 2.0 KB"]);
    apply_op(&mut log, LogOp::SizedDownloading { app: "notes".into(), bytes: 2048 }, "2.0 KB");
    assert!(matches!(&log[0].status, InstallStatus::Downloading(x) if x == "notes (2.0 KB)"));
    apply_op(&mut log, LogOp::SizedDownloading { app: "other".into(), bytes: 1 }, "1 B");
    assert_eq!(log.len(), 1);
    apply_op(&mut log, LogOp::PathAction { app: "notes".into(), template: "Copy to {path}".into(), file_name: "n.exe".into() }, "C:\\P\\n.exe");
    assert_eq!(log[0].actions[1], "Copy to C:\\P\\n.exe");
    apply_op(&mut log, LogOp::InsertFirst { app: "check".into(), status: InstallStatus::Pending }, "");
    assert_eq!(log.len(), 2);
    assert_eq!(log[0].app, "check");
    assert_eq!(log[1].app, "notes");
}

#[test]
fn a_precheck_puts_its_line_first_and_ends_it_done() {
    let t = get("EN_en.default.toml");
    let programs: Vec<ProgramInstall> = vec![];
    let mut log = vec![line("a", InstallStatus::Pending), line("b", InstallStatus::Pending)];
    let mut step = PrecheckStep::Begin;
    loop {
        let (ops, cmd) = precheck_step(&t, &programs, step);
        let values = ops.iter().map(|_| "x".to_string()).collect();
        apply_ops(&mut log, ops, values);
        step = match cmd {
            PrecheckCommand::CheckConnectivity => PrecheckStep::Connectivity(Ok(30)),
            PrecheckCommand::MeasureSpeed { total } => PrecheckStep::SpeedMeasured { total, result: Ok(1000) },
            PrecheckCommand::Finish => break,
        };
    }
    assert_eq!(log.len(), 3);
    assert_eq!(log[0].app, t.precheck_title);
    assert!(is_done(&log[0].status, t.precheck_done));
    assert_eq!(log[0].actions[0], t.precheck_checking_conn);
    assert_eq!(log[1].app, "a");
    assert_eq!(log[2].app, "b");
}

#[test]
fn log_lines_and_header() {
    assert_eq!(log_line("2026-04-27 15:30:45", "INFO", "github", "GET x"), "[2026-04-27 15:30:45][INFO][github] GET x\n");
    assert_eq!(
        session_header("2026-04-27 15:30:45", "/tmp/a.log"),
        "=== Rusty Suite Installer — 2026-04-27 15:30:45 UTC ===\nLog file: /tmp/a.log\n\n"
    );
}

#[test]
fn digests_are_compared() {
    assert!(compare_digests("notes", "", "abc").is_ok());
    assert!(compare_digests("notes", "abc", "abc").is_ok());
    assert_eq!(
        compare_digests("notes", "abd", "abc").unwrap_err(),
        "notes: SHA-256 invalide\n  attendu : abd\n  calculé : abc"
    );
    let sha = "2cf24dba5fb0a30e26e83b2ac5b9e29e1b161e5c1fa7425e73043362938b9824";
    assert!(check_digest("notes", b"hello", format!("{}  notes.exe\n", sha.to_uppercase()).as_bytes()).is_ok());
}

#[test]
fn the_first_language_file_that_exists_is_saved() {
    let c = vec!["langue/CH_fr.toml".to_string(), "langue/EN_en.default.toml".to_string()];
    assert_eq!(join_paths(&c), "langue/CH_fr.toml, langue/EN_en.default.toml");
    match language_copy_step("notes", "main", &c, LanguageCopyStep::Try(0)) {
        LanguageCopyAction::Fetch { index, url } => {
            assert_eq!(index, 0);
            assert_eq!(url, "https://raw.githubusercontent.com/rusty-suite/notes/main/langue/CH_fr.toml");
        }
        _ => panic!(),
    }
    match language_copy_step("notes", "main", &c, LanguageCopyStep::Fetched { index: 0, success: false }) {
        LanguageCopyAction::Fetch { index, .. } => assert_eq!(index, 1),
        _ => panic!(),
    }
    assert!(matches!(
        language_copy_step("notes", "main", &c, LanguageCopyStep::Fetched { index: 1, success: true }),
        LanguageCopyAction::Save { index: 1 }
    ));
    match language_copy_step("notes", "main", &c, LanguageCopyStep::Fetched { index: 1, success: false }) {
        LanguageCopyAction::Fail(m) => assert_eq!(
            m,
            "aucun fichier de langue pour notes (cherche: langue/CH_fr.toml, langue/EN_en.default.toml)"
        ),
        _ => panic!(),
    }
}

#[test]
fn screen_transitions_change_nothing_else() {
    let mut s = AppState::default();
    s.install_options.desktop_shortcut = false;
    s.common_languages = vec!["CH_fr.toml".into()];
    let repo = GithubRepo { name: "notes".into(), description: None, html_url: String::new(), default_branch: "main".into() };
    finish_loading(&mut s, Ok(vec![program_entry(repo, None, vec![], "langue".into(), None)]));
    assert!(s.screen == Screen::Eula);
    assert!(!s.install_options.desktop_shortcut);
    assert_eq!(s.common_languages, vec!["CH_fr.toml"]);
    accept_eula(&mut s, true);
    assert!(s.screen == Screen::Eula);
    s.eula_accepted = true;
    accept_eula(&mut s, true);
    assert!(s.screen == Screen::ProgramList);
    set_list_mode(&mut s, ListMode::Uninstall);
    start_operation(&mut s, true);
    assert!(s.screen == Screen::Installing && s.is_uninstall && s.list_mode == ListMode::Uninstall);
    assert_eq!(s.programs.len(), 1);
}

#[test]
fn a_whole_uninstallation_leaves_every_line_done() {
    let t = get("CH_fr.toml");
    let names = vec!["notes".to_string(), "agenda".to_string()];
    let mut log = pending_log(&names);
    for name in &names {
        let d = UninstallDirsText { install_dir: "I".into(), tmp_dir: "T".into(), appdata_dir: "A".into() };
        let mut step = UninstallStep::Begin;
        loop {
            let (ops, cmd) = uninstall_step(&t, name, &d, step);
            let values = ops.iter().map(|_| String::new()).collect();
            apply_ops(&mut log, ops, values);
            step = match cmd {
                UninstallCommand::RemoveInstallDir => UninstallStep::InstallDirRemoved(Removal::Failed("busy".into())),
                UninstallCommand::RemoveShortcuts => UninstallStep::ShortcutsRemoved,
                UninstallCommand::RemoveTempDir => UninstallStep::TempRemoved,
                UninstallCommand::RemoveDataDir => UninstallStep::DataDirRemoved(Removal::Removed),
                UninstallCommand::Finish => break,
            };
        }
    }
    assert_eq!(log.len(), 2);
    assert!(is_done(&log[0].status, "notes"));
    assert!(is_done(&log[1].status, "agenda"));
}
