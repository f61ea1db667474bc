use suite_install::github::{GithubRelease, ReleaseAsset};
use suite_install::i18n::{get, language_of, Language};
use suite_install::install_flow::{
    install_step, precheck_step, total_download_size, uninstall_step, InstallCommand,
    InstallDirsText, InstallStep, LogOp, PrecheckCommand, PrecheckStep, ProgramInstall, Removal,
    UninstallCommand, UninstallDirsText, UninstallStep,
};
use suite_install::runner::{
    check_digest, check_size, exe_entry, fetch_result, format_eta, lang_file_candidates,
    shortcut_script, version_label, FetchOutcome,
};
use suite_install::state::{action, set_status, update_status_if_present, InstallLogEntry, InstallOptions, InstallStatus};

fn status_text(s: &InstallStatus) -> String {
    match s {
        InstallStatus::Pending => "pending".to_string(),
        InstallStatus::Downloading(x) => format!("downloading {x}"),
        InstallStatus::Installing(x) => format!("installing {x}"),
        InstallStatus::Done(x) => format!("done {x}"),
        InstallStatus::Error(x) => format!("error {x}"),
    }
}

fn op_text(op: &LogOp) -> String {
    match op {
        LogOp::SetStatus { app, status } => format!("{app}: {}", status_text(status)),
        LogOp::InsertFirst { app, status } => format!("first {app}: {}", status_text(status)),
        LogOp::Action { app, message } => format!("{app}> {message}"),
        LogOp::SizedAction { app, template, bytes } => format!("{app}> {template} [{bytes}]"),
        LogOp::SpeedAction { app, template, bytes_per_sec } => format!("{app}> {template} [{bytes_per_sec}/s]"),
        LogOp::PathAction { app, template, file_name } => format!("{app}> {template} [{file_name}]"),
        LogOp::SizedDownloading { app, bytes } => format!("{app}: downloading [{bytes}]"),
    }
}

fn texts(ops: &[LogOp]) -> Vec<String> {
    ops.iter().map(op_text).collect()
}

fn job(release: Option<GithubRelease>) -> ProgramInstall {
    ProgramInstall {
        name: "notes".to_string(),
        release,
        branch: "main".to_string(),
        language: "CH_fr.toml".to_string(),
        lang_folder: "langue".to_string(),
    }
}

fn dirs() -> InstallDirsText {
    InstallDirsText { install_dir: "C:\\P\\notes".to_string(), appdata_dir: "C:\\D\\notes".to_string() }
}

fn rel() -> GithubRelease {
    GithubRelease {
        tag_name: "v1.2.0".to_string(),
        assets: vec![
            ReleaseAsset { name: "notes.exe".into(), browser_download_url: "https://dl/notes.exe".into(), size: 5 },
            ReleaseAsset { name: "notes.exe.sha256".into(), browser_download_url: "https://dl/notes.exe.sha256".into(), size: 64 },
        ],
        draft: false,
        prerelease: false,
    }
}

#[test]
fn set_status_updates_or_adds_a_line() {
    let mut log: Vec<InstallLogEntry> = Vec::new();
    set_status(&mut log, "a", InstallStatus::Pending);
    set_status(&mut log, "b", InstallStatus::Done("b".into()));
    set_status(&mut log, "a", InstallStatus::Error("x".into()));
    assert_eq!(log.len(), 2);
    assert_eq!(status_text(&log[0].status), "error x");
    assert_eq!(status_text(&log[1].status), "done b");
}

#[test]
fn actions_are_appended_to_the_program_line() {
    let mut log: Vec<InstallLogEntry> = Vec::new();
    action(&mut log, "a", "one".into());
    action(&mut log, "a", "two".into());
    action(&mut log, "b", "three".into());
    assert_eq!(log.len(), 2);
    assert_eq!(log[0].actions, vec!["one", "two"]);
    assert_eq!(status_text(&log[1].status), "pending");
    update_status_if_present(&mut log, "c", InstallStatus::Pending);
    assert_eq!(log.len(), 2);
    update_status_if_present(&mut log, "b", InstallStatus::Installing("i".into()));
    assert_eq!(status_text(&log[1].status), "installing i");
}

#[test]
fn translations_by_file_name() {
    assert_eq!(language_of("CH_fr.toml"), Language::French);
    assert_eq!(language_of("CH_de.toml"), Language::German);
    assert_eq!(language_of("CH_it.toml"), Language::Italian);
    assert_eq!(language_of("EN_en.default.toml"), Language::English);
    assert_eq!(language_of("XX"), Language::English);
    assert_eq!(get("CH_fr.toml").close_btn, "Fermer");
    assert_eq!(get("CH_de.toml").close_btn, "Schliessen");
    assert_eq!(get("CH_it.toml").close_btn, "Chiudi");
    assert_eq!(get("zz").close_btn, "Close");
}

#[test]
fn installation_begins_by_creating_directories() {
    let t = get("EN_en.default.toml");
    let (ops, cmd) = install_step(&t, &InstallOptions::default(), &job(None), &dirs(), InstallStep::Begin);
    assert_eq!(
        texts(&ops),
        vec![
            "notes> Starting installation from branch main",
            "notes: downloading notes",
            "notes> Creating install directory: C:\\P\\notes",
        ]
    );
    assert!(matches!(cmd, InstallCommand::CreateInstallDir));
    let (ops, cmd) = install_step(&t, &InstallOptions::default(), &job(None), &dirs(), InstallStep::InstallDirCreated(Err("denied".into())));
    assert_eq!(texts(&ops), vec!["notes: error mkdir install: denied"]);
    assert!(matches!(cmd, InstallCommand::Finish));
}

#[test]
fn certificate_is_checked_then_asset_searched() {
    let t = get("EN_en.default.toml");
    let o = InstallOptions::default();
    let (ops, cmd) = install_step(&t, &o, &job(None), &dirs(), InstallStep::DataDirCreated(Ok(())));
    assert_eq!(texts(&ops), vec!["notes> Checking certificate: https://raw.githubusercontent.com/rusty-suite/notes/main/certificat_public/notes.crt"]);
    let url = match cmd {
        InstallCommand::CheckCertificate { url } => url,
        _ => panic!(),
    };
    let (ops, _) = install_step(&t, &o, &job(None), &dirs(), InstallStep::CertificateChecked { url, exists: false });
    assert_eq!(texts(&ops), vec!["notes> Searching for and downloading Windows asset", "notes: error notes: no release available"]);
    let (ops, cmd) = install_step(&t, &o, &job(Some(rel())), &dirs(), InstallStep::CertificateInstalled(Ok(())));
    assert_eq!(texts(&ops), vec!["notes> Searching for and downloading Windows asset", "notes> Asset: notes.exe ({size}) [5]"]);
    match cmd {
        InstallCommand::CreateTempDir { asset, checksum } => {
            assert_eq!(asset.name, "notes.exe");
            assert_eq!(checksum.map(|c| c.name), Some("notes.exe.sha256".to_string()));
        }
        _ => panic!(),
    }
}

#[test]
fn download_is_checked_for_size_and_digest() {
    let t = get("EN_en.default.toml");
    let o = InstallOptions::default();
    let r = rel();
    let asset = r.assets[0].clone();
    let checksum = r.assets[1].clone();
    let wrong = FetchOutcome::Replied { status: 200, status_text: "200 OK".into(), body: Ok(b"hell".to_vec()) };
    let (ops, _) = install_step(&t, &o, &job(Some(rel())), &dirs(), InstallStep::AssetFetched { asset: asset.clone(), checksum: Some(checksum.clone()), outcome: wrong });
    assert_eq!(texts(&ops), vec!["notes: error notes: taille incorrecte (attendu 5 o, reçu 4 o)"]);
    let good = FetchOutcome::Replied { status: 200, status_text: "200 OK".into(), body: Ok(b"hello".to_vec()) };
    let (ops, cmd) = install_step(&t, &o, &job(Some(rel())), &dirs(), InstallStep::AssetFetched { asset: asset.clone(), checksum: Some(checksum.clone()), outcome: good });
    assert_eq!(texts(&ops), vec!["notes> Size verified: {size} [5]", "notes> Verifying SHA-256…"]);
    let data = match cmd {
        InstallCommand::FetchChecksum { data, .. } => data,
        _ => panic!(),
    };
    let sha = FetchOutcome::Replied {
        status: 200,
        status_text: "200 OK".into(),
        body: Ok(b"2CF24DBA5FB0A30E26E83B2AC5B9E29E1B161E5C1FA7425E73043362938B9824  notes.exe\n".to_vec()),
    };
    let (ops, cmd) = install_step(&t, &o, &job(Some(rel())), &dirs(), InstallStep::ChecksumFetched { asset: asset.clone(), checksum: checksum.clone(), data: data.clone(), outcome: sha });
    assert_eq!(texts(&ops), vec!["notes> SHA-256 validated ✓"]);
    assert!(matches!(cmd, InstallCommand::WriteTemp { .. }));
    let bad = FetchOutcome::Replied { status: 200, status_text: "200 OK".into(), body: Ok(b"00ff notes.exe".to_vec()) };
    let (ops, _) = install_step(&t, &o, &job(Some(rel())), &dirs(), InstallStep::ChecksumFetched { asset, checksum, data, outcome: bad });
    assert_eq!(
        texts(&ops),
        vec!["notes: error notes: SHA-256 invalide\n  attendu : 00ff\n  calculé : 2cf24dba5fb0a30e26e83b2ac5b9e29e1b161e5c1fa7425e73043362938b9824"]
    );
}

#[test]
fn placing_then_language_shortcuts_and_record() {
    let t = get("EN_en.default.toml");
    let o = InstallOptions { desktop_shortcut: false, quicklaunch_shortcut: true, selected_language: "CH_fr.toml".into() };
    let a = rel().assets[0].clone();
    let (ops, cmd) = install_step(&t, &o, &job(Some(rel())), &dirs(), InstallStep::TempWritten { asset: a, result: Ok(()) });
    assert_eq!(texts(&ops), vec!["notes> Copying to {path} [notes.exe]"]);
    assert!(matches!(cmd, InstallCommand::Copy { .. }));
    let (ops, cmd) = install_step(&t, &o, &job(Some(rel())), &dirs(), InstallStep::Placed { zip: true, result: Err("bad".into()) });
    assert_eq!(texts(&ops), vec!["notes: error notes: zip: bad"]);
    assert!(matches!(cmd, InstallCommand::Finish));
    let (ops, cmd) = install_step(&t, &o, &job(Some(rel())), &dirs(), InstallStep::Placed { zip: false, result: Ok("C:\\P\\notes\\notes.exe".into()) });
    assert_eq!(texts(&ops), vec!["notes> Copying selected language: CH_fr.toml"]);
    match cmd {
        InstallCommand::CopyLanguage { candidates, .. } => assert_eq!(candidates, vec!["langue/CH_fr.toml", "langue/EN_en.default.toml"]),
        _ => panic!(),
    }
    let (ops, cmd) = install_step(&t, &o, &job(Some(rel())), &dirs(), InstallStep::LanguageCopied { exe_path: "x.exe".into(), now: 1_777_303_845 });
    assert_eq!(texts(&ops), vec!["notes: installing Raccourcis notes", "notes> Creating Start Menu shortcut"]);
    assert!(matches!(cmd, InstallCommand::StartMenuShortcut { .. }));
    let (ops, cmd) = install_step(&t, &o, &job(Some(rel())), &dirs(), InstallStep::StartMenuShortcutDone { exe_path: "x.exe".into(), now: 1_777_303_845 });
    assert_eq!(texts(&ops), vec!["notes> Writing install.json file"]);
    match cmd {
        InstallCommand::WriteRecord { record } => {
            assert_eq!(record.version, "v1.2.0");
            assert_eq!(record.exe_path, "x.exe");
            assert_eq!(record.installed_at, "1777303845");
        }
        _ => panic!(),
    }
    let (ops, cmd) = install_step(&t, &o, &job(None), &dirs(), InstallStep::RecordWritten);
    assert_eq!(texts(&ops), vec!["notes: done notes", "notes> Installation complete"]);
    assert!(matches!(cmd, InstallCommand::Finish));
}

#[test]
fn precheck_reports_size_speed_and_eta() {
    let t = get("EN_en.default.toml");
    let programs = vec![job(Some(rel())), job(None)];
    assert_eq!(total_download_size(&programs), Some(5));
    let (ops, cmd) = precheck_step(&t, &programs, PrecheckStep::Begin);
    assert_eq!(texts(&ops), vec!["first Pre-installation check: installing Pre-installation check", "Pre-installation check> Checking GitHub connectivity…"]);
    assert!(matches!(cmd, PrecheckCommand::CheckConnectivity));
    let (ops, cmd) = precheck_step(&t, &programs, PrecheckStep::Connectivity(Ok(120)));
    assert_eq!(
        texts(&ops),
        vec![
            "Pre-installation check> GitHub reachable (120 ms)",
            "Pre-installation check> Total to download: {size} [5]",
            "Pre-installation check> Measuring connection speed…",
        ]
    );
    assert!(matches!(cmd, PrecheckCommand::MeasureSpeed { total: 5 }));
    let (ops, _) = precheck_step(&t, &programs, PrecheckStep::SpeedMeasured { total: 7200, result: Ok(2) });
    assert_eq!(
        texts(&ops),
        vec![
            "Pre-installation check> Speed: {speed} [2/s]",
            "Pre-installation check> Estimated time: 1h 00m",
            "Pre-installation check: done Pre-check complete",
        ]
    );
    let (ops, cmd) = precheck_step(&t, &programs, PrecheckStep::Connectivity(Err("offline".into())));
    assert_eq!(texts(&ops)[0], "Pre-installation check> GitHub unreachable: offline");
    assert!(matches!(cmd, PrecheckCommand::Finish));
}

#[test]
fn uninstallation_reports_each_directory() {
    let t = get("CH_fr.toml");
    let d = UninstallDirsText { install_dir: "I".into(), tmp_dir: "T".into(), appdata_dir: "A".into() };
    let (ops, cmd) = uninstall_step(&t, "notes", &d, UninstallStep::Begin);
    assert_eq!(texts(&ops), vec!["notes> Démarrage de la désinstallation de notes", "notes: installing Désinstallation notes", "notes> Suppression de I"]);
    assert!(matches!(cmd, UninstallCommand::RemoveInstallDir));
    let (ops, _) = uninstall_step(&t, "notes", &d, UninstallStep::InstallDirRemoved(Removal::Missing));
    assert_eq!(texts(&ops), vec!["notes> Dossier install absent (déjà supprimé): I", "notes> Suppression des raccourcis"]);
    let (ops, _) = uninstall_step(&t, "notes", &d, UninstallStep::InstallDirRemoved(Removal::Removed));
    assert_eq!(texts(&ops), vec!["notes> Suppression des raccourcis"]);
    let (ops, cmd) = uninstall_step(&t, "notes", &d, UninstallStep::DataDirRemoved(Removal::Failed("busy".into())));
    assert_eq!(texts(&ops), vec!["notes> ⚠ Impossible de supprimer A: busy", "notes: done notes", "notes> Désinstallation terminée"]);
    assert!(matches!(cmd, UninstallCommand::Finish));
}

#[test]
fn durations() {
    assert_eq!(format_eta(0), "0s");
    assert_eq!(format_eta(59), "59s");
    assert_eq!(format_eta(60), "1m 00s");
    assert_eq!(format_eta(185), "3m 05s");
    assert_eq!(format_eta(3600), "1h 00m");
    assert_eq!(format_eta(7620), "2h 07m");
}

#[test]
fn download_outcomes() {
    assert_eq!(fetch_result("n", "u", FetchOutcome::Unreachable("dns".into())), Err("n: connexion (u): dns".to_string()));
    assert_eq!(
        fetch_result("n", "u", FetchOutcome::Replied { status: 404, status_text: "404 Not Found".into(), body: Ok(vec![]) }),
        Err("n: HTTP 404 Not Found pour u".to_string())
    );
    assert_eq!(
        fetch_result("n", "u", FetchOutcome::Replied { status: 200, status_text: "200 OK".into(), body: Err("eof".into()) }),
        Err("n: lecture (u): eof".to_string())
    );
    assert_eq!(fetch_result("n", "u", FetchOutcome::Replied { status: 200, status_text: "200 OK".into(), body: Ok(vec![1, 2]) }), Ok(vec![1, 2]));
    assert_eq!(check_size("n", 0, 10), Ok(()));
    assert_eq!(check_size("n", 10, 10), Ok(()));
    assert!(check_size("n", 10, 9).is_err());
    assert_eq!(check_digest("n", b"hello", b"   "), Ok(()));
    assert_eq!(check_digest("n", b"hello", b"2cf24dba5fb0a30e26e83b2ac5b9e29e1b161e5c1fa7425e73043362938b9824"), Ok(()));
}

#[test]
fn installed_files() {
    assert_eq!(lang_file_candidates("lang", "EN_en.default.toml"), vec!["lang/EN_en.default.toml"]);
    let names = vec!["app/".to_string(), "app/a.exe".to_string(), "app/readme.txt".to_string(), "app/b.exe".to_string(), "c.dll".to_string()];
    assert_eq!(exe_entry(&names), Some(3));
    assert_eq!(exe_entry(&vec!["x.txt".to_string()]), None);
    assert_eq!(version_label(&None), "unknown");
    assert_eq!(
        shortcut_script("C:\\D\\a.lnk", "C:\\P\\a.exe"),
        "$ws = New-Object -ComObject WScript.Shell; $sc = $ws.CreateShortcut('C:\\D\\a.lnk'); $sc.TargetPath = 'C:\\P\\a.exe'; $sc.Save()"
    );
}

fn command_rank(c: &InstallCommand) -> (u32, &'static str) {
    match c {
        InstallCommand::CreateInstallDir => (1, "mkdir install"),
        InstallCommand::CreateDataDir => (2, "mkdir data"),
        InstallCommand::CheckCertificate { .. } => (3, "check certificate"),
        InstallCommand::InstallCertificate { .. } => (4, "install certificate"),
        InstallCommand::CreateTempDir { .. } => (5, "mkdir tmp"),
        InstallCommand::FetchAsset { .. } => (6, "fetch asset"),
        InstallCommand::FetchChecksum { .. } => (7, "fetch checksum"),
        InstallCommand::WriteTemp { .. } => (8, "write tmp"),
        InstallCommand::Extract { .. } => (9, "extract"),
        InstallCommand::Copy { .. } => (9, "copy"),
        InstallCommand::CopyLanguage { .. } => (10, "language"),
        InstallCommand::DesktopShortcut { .. } => (11, "desktop"),
        InstallCommand::StartMenuShortcut { .. } => (12, "start menu"),
        InstallCommand::WriteRecord { .. } => (13, "record"),
        InstallCommand::Finish => (14, "finish"),
    }
}

const HELLO_SHA256: &str = "2cf24dba5fb0a30e26e83b2ac5b9e29e1b161e5c1fa7425e73043362938b9824";

fn replied(body: Vec<u8>) -> FetchOutcome {
    FetchOutcome::Replied { status: 200, status_text: "200 OK".into(), body: Ok(body) }
}

/// Runs an installation answering every command with success; returns the
/// commands in order and the log texts.
fn run_installation(o: &InstallOptions, j: &ProgramInstall, checksum_file: &str) -> (Vec<&'static str>, Vec<String>) {
    let t = get("EN_en.default.toml");
    let mut step = InstallStep::Begin;
    let mut last = 0;
    let mut commands = Vec::new();
    let mut log = Vec::new();
    loop {
        let (ops, cmd) = install_step(&t, o, j, &dirs(), step);
        log.extend(texts(&ops));
        let (rank, label) = command_rank(&cmd);
        assert!(rank > last);
        last = rank;
        commands.push(label);
        step = match cmd {
            InstallCommand::CreateInstallDir => InstallStep::InstallDirCreated(Ok(())),
            InstallCommand::CreateDataDir => InstallStep::DataDirCreated(Ok(())),
            InstallCommand::CheckCertificate { url } => InstallStep::CertificateChecked { url, exists: true },
            InstallCommand::InstallCertificate { .. } => InstallStep::CertificateInstalled(Ok(())),
            InstallCommand::CreateTempDir { asset, checksum } => InstallStep::TempDirCreated { asset, checksum, result: Ok(()) },
            InstallCommand::FetchAsset { asset, checksum } => {
                InstallStep::AssetFetched { asset, checksum, outcome: replied(b"hello".to_vec()) }
            }
            InstallCommand::FetchChecksum { asset, checksum, data } => InstallStep::ChecksumFetched {
                asset,
                checksum,
                data,
                outcome: replied(checksum_file.as_bytes().to_vec()),
            },
            InstallCommand::WriteTemp { asset, .. } => InstallStep::TempWritten { asset, result: Ok(()) },
            InstallCommand::Extract { .. } => InstallStep::Placed { zip: true, result: Ok("C:\\P\\notes\\notes.exe".into()) },
            InstallCommand::Copy { asset_name } => {
                InstallStep::Placed { zip: false, result: Ok(format!("C:\\P\\notes\\{asset_name}")) }
            }
            InstallCommand::CopyLanguage { exe_path, .. } => InstallStep::LanguageCopied { exe_path, now: 0 },
            InstallCommand::DesktopShortcut { exe_path } => InstallStep::DesktopShortcutDone { exe_path, now: 0 },
            InstallCommand::StartMenuShortcut { exe_path } => InstallStep::StartMenuShortcutDone { exe_path, now: 0 },
            InstallCommand::WriteRecord { .. } => InstallStep::RecordWritten,
            InstallCommand::Finish => break,
        };
    }
    (commands, log)
}

#[test]
fn a_full_installation_moves_forward_and_ends_done() {
    let o = InstallOptions { desktop_shortcut: true, quicklaunch_shortcut: true, selected_language: "CH_fr.toml".into() };
    let (commands, log) = run_installation(&o, &job(Some(rel())), &format!("{HELLO_SHA256}  notes.exe\n"));
    assert_eq!(
        commands,
        vec![
            "mkdir install", "mkdir data", "check certificate", "install certificate", "mkdir tmp",
            "fetch asset", "fetch checksum", "write tmp", "copy", "language", "desktop",
            "start menu", "record", "finish",
        ]
    );
    assert_eq!(log[log.len() - 2], "notes: done notes");
    assert_eq!(log[log.len() - 1], "notes> Installation complete");
}

#[test]
fn a_wrong_digest_ends_the_installation_in_error() {
    let o = InstallOptions { desktop_shortcut: false, quicklaunch_shortcut: false, selected_language: "CH_fr.toml".into() };
    let other = "0".repeat(64);
    let (commands, log) = run_installation(&o, &job(Some(rel())), &other);
    assert_eq!(commands.last(), Some(&"finish"));
    assert!(!commands.contains(&"write tmp"));
    assert!(log.last().unwrap().starts_with("notes: error notes: SHA-256 invalide"));
}

#[test]
fn a_full_uninstallation_ends_done() {
    let t = get("EN_en.default.toml");
    let d = UninstallDirsText { install_dir: "I".into(), tmp_dir: "T".into(), appdata_dir: "A".into() };
    let mut step = UninstallStep::Begin;
    let mut commands = Vec::new();
    let mut log = Vec::new();
    loop {
        let (ops, cmd) = uninstall_step(&t, "notes", &d, step);
        log.extend(texts(&ops));
        step = match cmd {
            UninstallCommand::RemoveInstallDir => {
                commands.push("install");
                UninstallStep::InstallDirRemoved(Removal::Removed)
            }
            UninstallCommand::RemoveShortcuts => {
                commands.push("shortcuts");
                UninstallStep::ShortcutsRemoved
            }
            UninstallCommand::RemoveTempDir => {
                commands.push("tmp");
                UninstallStep::TempRemoved
            }
            UninstallCommand::RemoveDataDir => {
                commands.push("data");
                UninstallStep::DataDirRemoved(Removal::Missing)
            }
            UninstallCommand::Finish => break,
        };
    }
    assert_eq!(commands, vec!["install", "shortcuts", "tmp", "data"]);
    assert_eq!(log[log.len() - 2], "notes: done notes");
}
