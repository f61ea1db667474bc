//! The installation of one program, step by step. The caller performs each
//! command (directories, downloads, files, shortcuts) and answers with the
//! step that reports its outcome; each step says what goes to the progress
//! log and what to do next.
use vstd::prelude::*;

use crate::assets::{
    best_asset, copy_asset, find_checksum_asset, is_checksum_for, lemma_best_asset_is_best,
    pick_windows_asset_index,
};
use crate::github::{certificate_url, spec_certificate_path, spec_raw_url, GithubRelease, ReleaseAsset};
use crate::i18n::Translations;
use crate::paths::InstallRecord;
use crate::runner::{
    format_eta, spec_format_eta, announced_digest, check_digest, check_size, digest_matches, fetch_result, is_zip,
    lang_file_candidates, size_matches, spec_digest_error, spec_fetch_result, spec_lang_candidates,
    spec_size_error, spec_version_label, version_label, FetchOutcome,
};
use crate::state::{InstallOptions, InstallStatus};
use crate::text::{concat2, decimal, decimal_string, has_suffix, push_str, replace, replaced, string_of, views};

verus! {

/// A change to the progress log. The texts that carry a size, a speed or a
/// path are completed by the caller, which renders those values.
pub enum LogOp {
    /// Set the status of the program's line (adding the line when missing).
    SetStatus { app: String, status: InstallStatus },
    /// Put a line for the program first in the log.
    InsertFirst { app: String, status: InstallStatus },
    /// Append a message to the program's actions (adding the line when missing).
    Action { app: String, message: String },
    /// As `Action`, with `{size}` in the template replaced by the size of `bytes`.
    SizedAction { app: String, template: String, bytes: u64 },
    /// As `Action`, with `{speed}` replaced by the rate of `bytes_per_sec`.
    SpeedAction { app: String, template: String, bytes_per_sec: u64 },
    /// As `Action`, with `{path}` replaced by the install directory joined
    /// with `file_name`.
    PathAction { app: String, template: String, file_name: String },
    /// When the program has a line: status `Downloading("<app> (<size of bytes>)")`.
    SizedDownloading { app: String, bytes: u64 },
}

pub open spec fn is_action(op: LogOp, app: Seq<char>, message: Seq<char>) -> bool {
    op matches LogOp::Action { app: a, message: m } && a@ == app && m@ == message
}

pub open spec fn is_sized_action(op: LogOp, app: Seq<char>, template: Seq<char>, bytes: u64) -> bool {
    op matches LogOp::SizedAction { app: a, template: t, bytes: b } && a@ == app && t@ == template
        && b == bytes
}

pub open spec fn is_speed_action(op: LogOp, app: Seq<char>, template: Seq<char>, bps: u64) -> bool {
    op matches LogOp::SpeedAction { app: a, template: t, bytes_per_sec: b } && a@ == app && t@
        == template && b == bps
}

pub open spec fn is_path_action(
    op: LogOp,
    app: Seq<char>,
    template: Seq<char>,
    file_name: Seq<char>,
) -> bool {
    op matches LogOp::PathAction { app: a, template: t, file_name: f } && a@ == app && t@
        == template && f@ == file_name
}

pub open spec fn is_sized_downloading(op: LogOp, app: Seq<char>, bytes: u64) -> bool {
    op matches LogOp::SizedDownloading { app: a, bytes: b } && a@ == app && b == bytes
}

pub open spec fn is_set_downloading(op: LogOp, app: Seq<char>, text: Seq<char>) -> bool {
    op matches LogOp::SetStatus { app: a, status: InstallStatus::Downloading(x) } && a@ == app
        && x@ == text
}

pub open spec fn is_set_installing(op: LogOp, app: Seq<char>, text: Seq<char>) -> bool {
    op matches LogOp::SetStatus { app: a, status: InstallStatus::Installing(x) } && a@ == app
        && x@ == text
}

pub open spec fn is_set_done(op: LogOp, app: Seq<char>, text: Seq<char>) -> bool {
    op matches LogOp::SetStatus { app: a, status: InstallStatus::Done(x) } && a@ == app && x@
        == text
}

pub open spec fn is_set_error(op: LogOp, app: Seq<char>, text: Seq<char>) -> bool {
    op matches LogOp::SetStatus { app: a, status: InstallStatus::Error(x) } && a@ == app && x@
        == text
}

/// The ops are exactly one error status for the program.
pub open spec fn fails_with(ops: Seq<LogOp>, app: Seq<char>, text: Seq<char>) -> bool {
    ops.len() == 1 && is_set_error(ops[0], app, text)
}

/// What the caller knows of a program to install.
pub struct ProgramInstall {
    pub name: String,
    pub release: Option<GithubRelease>,
    pub branch: String,
    pub language: String,
    pub lang_folder: String,
}

/// The install and data directories of the program, as shown to the user.
pub struct InstallDirsText {
    pub install_dir: String,
    pub appdata_dir: String,
}

/// The outcome of the previous command.
pub enum InstallStep {
    Begin,
    InstallDirCreated(Result<(), String>),
    DataDirCreated(Result<(), String>),
    CertificateChecked { url: String, exists: bool },
    CertificateInstalled(Result<(), String>),
    TempDirCreated {
        asset: ReleaseAsset,
        checksum: Option<ReleaseAsset>,
        result: Result<(), String>,
    },
    AssetFetched { asset: ReleaseAsset, checksum: Option<ReleaseAsset>, outcome: FetchOutcome },
    ChecksumFetched {
        asset: ReleaseAsset,
        checksum: ReleaseAsset,
        data: Vec<u8>,
        outcome: FetchOutcome,
    },
    TempWritten { asset: ReleaseAsset, result: Result<(), String> },
    Placed { zip: bool, result: Result<String, String> },
    /// `now`: the clock reading, in seconds since the Unix epoch, when the
    /// step is answered; it becomes the install time if the record follows.
    LanguageCopied { exe_path: String, now: u64 },
    DesktopShortcutDone { exe_path: String, now: u64 },
    StartMenuShortcutDone { exe_path: String, now: u64 },
    RecordWritten,
}

/// What to do next.
pub enum InstallCommand {
    /// Create the install directory; answer `InstallDirCreated`.
    CreateInstallDir,
    /// Create the data directory; answer `DataDirCreated`.
    CreateDataDir,
    /// Ask whether the certificate exists; answer `CertificateChecked`.
    CheckCertificate { url: String },
    /// Download and trust the certificate; answer `CertificateInstalled`.
    InstallCertificate { url: String },
    /// Create the download directory; answer `TempDirCreated`.
    CreateTempDir { asset: ReleaseAsset, checksum: Option<ReleaseAsset> },
    /// Download the asset; answer `AssetFetched`.
    FetchAsset { asset: ReleaseAsset, checksum: Option<ReleaseAsset> },
    /// Download the checksum file; answer `ChecksumFetched`.
    FetchChecksum { asset: ReleaseAsset, checksum: ReleaseAsset, data: Vec<u8> },
    /// Write the download to the download directory; answer `TempWritten`.
    WriteTemp { asset: ReleaseAsset, data: Vec<u8> },
    /// Extract the downloaded archive into the install directory; answer
    /// `Placed` with the executable's path.
    Extract { asset_name: String },
    /// Copy the downloaded file into the install directory; answer `Placed`
    /// with its path.
    Copy { asset_name: String },
    /// Fetch the first of the language files that exists into the data
    /// directory's `lang` folder; answer `LanguageCopied`.
    CopyLanguage { candidates: Vec<String>, exe_path: String },
    /// Create the desktop shortcut; answer `DesktopShortcutDone`.
    DesktopShortcut { exe_path: String },
    /// Create the Start menu shortcut; answer `StartMenuShortcutDone`.
    StartMenuShortcut { exe_path: String },
    /// Write `install.json`; answer `RecordWritten`.
    WriteRecord { record: InstallRecord },
    /// The program is done with.
    Finish,
}

/// What follows the certificate: the search for the asset to download.
pub open spec fn spec_search(
    t: Translations,
    job: ProgramInstall,
    ops: Seq<LogOp>,
    cmd: InstallCommand,
) -> bool {
    let name = job.name@;
    &&& ops.len() >= 1
    &&& is_action(ops[0], name, t.log_searching_asset@)
    &&& match job.release {
        None => ops.len() == 2 && is_set_error(ops[1], name, name + ": "@ + t.log_no_release@)
            && cmd is Finish,
        Some(rel) => match best_asset(rel.assets@) {
            None => ops.len() == 2 && is_set_error(
                ops[1],
                name,
                name + ": "@ + t.log_no_windows_asset@,
            ) && cmd is Finish,
            Some(i) => {
                let a = rel.assets@[i];
                &&& ops.len() == 2
                &&& is_sized_action(
                    ops[1],
                    name,
                    replaced(t.log_asset_info@, "{asset}"@, a.name@),
                    a.size,
                )
                &&& cmd matches InstallCommand::CreateTempDir { asset, checksum }
                &&& asset == a
                &&& match checksum {
                    Some(c) => exists|j: int|
                        0 <= j < rel.assets@.len() && rel.assets@[j] == c && is_checksum_for(
                            c.name@,
                            a.name@,
                        ) && forall|k: int|
                            0 <= k < j ==> !is_checksum_for(
                                #[trigger] rel.assets@[k].name@,
                                a.name@,
                            ),
                    None => forall|k: int|
                        0 <= k < rel.assets@.len() ==> !is_checksum_for(
                            #[trigger] rel.assets@[k].name@,
                            a.name@,
                        ),
                }
            },
        },
    }
}

/// What follows the language file: the shortcuts, then the record.
pub open spec fn spec_after_language(
    t: Translations,
    options: InstallOptions,
    job: ProgramInstall,
    exe: Seq<char>,
    now: u64,
    ops: Seq<LogOp>,
    cmd: InstallCommand,
) -> bool {
    let name = job.name@;
    &&& ops.len() >= 1
    &&& is_set_installing(ops[0], name, "Raccourcis "@ + name)
    &&& if options.desktop_shortcut {
        &&& ops.len() == 2
        &&& is_action(ops[1], name, t.log_creating_desktop@)
        &&& cmd matches InstallCommand::DesktopShortcut { exe_path }
        &&& exe_path@ == exe
    } else {
        spec_after_desktop(t, options, job, exe, now, ops.subrange(1, ops.len() as int), cmd)
    }
}

/// What follows the desktop shortcut: the Start menu shortcut, then the record.
pub open spec fn spec_after_desktop(
    t: Translations,
    options: InstallOptions,
    job: ProgramInstall,
    exe: Seq<char>,
    now: u64,
    ops: Seq<LogOp>,
    cmd: InstallCommand,
) -> bool {
    if options.quicklaunch_shortcut {
        &&& ops.len() == 1
        &&& is_action(ops[0], job.name@, t.log_creating_start@)
        &&& cmd matches InstallCommand::StartMenuShortcut { exe_path }
        &&& exe_path@ == exe
    } else {
        spec_record(t, job, exe, now, ops, cmd)
    }
}

/// Writing the install record: version, executable and install time.
pub open spec fn spec_record(
    t: Translations,
    job: ProgramInstall,
    exe: Seq<char>,
    now: u64,
    ops: Seq<LogOp>,
    cmd: InstallCommand,
) -> bool {
    &&& ops.len() == 1
    &&& is_action(ops[0], job.name@, t.log_writing_record@)
    &&& cmd matches InstallCommand::WriteRecord { record }
    &&& record.version@ == spec_version_label(job.release)
    &&& record.exe_path@ == exe
    &&& record.installed_at@ == decimal(now as nat)
}

/// The decisions of `install_step`.
pub open spec fn spec_install_step(
    t: Translations,
    options: InstallOptions,
    job: ProgramInstall,
    dirs: InstallDirsText,
    step: InstallStep,
    ops: Seq<LogOp>,
    cmd: InstallCommand,
) -> bool {
    let name = job.name@;
    match step {
        InstallStep::Begin => {
            &&& ops.len() == 3
            &&& is_action(ops[0], name, replaced(t.log_starting_install@, "{branch}"@, job.branch@))
            &&& is_set_downloading(ops[1], name, name)
            &&& is_action(
                ops[2],
                name,
                replaced(t.log_creating_install_dir@, "{path}"@, dirs.install_dir@),
            )
            &&& cmd is CreateInstallDir
        },
        InstallStep::InstallDirCreated(r) => match r {
            Err(e) => fails_with(ops, name, "mkdir install: "@ + e@) && cmd is Finish,
            Ok(_) => ops.len() == 1 && is_action(
                ops[0],
                name,
                replaced(t.log_creating_data_dir@, "{path}"@, dirs.appdata_dir@),
            ) && cmd is CreateDataDir,
        },
        InstallStep::DataDirCreated(r) => match r {
            Err(e) => fails_with(ops, name, "mkdir appdata: "@ + e@) && cmd is Finish,
            Ok(_) => {
                let url = spec_raw_url(name, job.branch@, spec_certificate_path(name));
                &&& ops.len() == 1
                &&& is_action(ops[0], name, replaced(t.log_checking_cert@, "{url}"@, url))
                &&& cmd matches InstallCommand::CheckCertificate { url: u }
                &&& u@ == url
            },
        },
        InstallStep::CertificateChecked { url, exists } => if exists {
            &&& ops.len() == 2
            &&& is_set_installing(ops[0], name, "Certificat "@ + name)
            &&& is_action(ops[1], name, t.log_installing_cert@)
            &&& cmd matches InstallCommand::InstallCertificate { url: u }
            &&& u@ == url@
        } else {
            spec_search(t, job, ops, cmd)
        },
        InstallStep::CertificateInstalled(r) => match r {
            Err(e) => fails_with(ops, name, "Certificat: "@ + e@) && cmd is Finish,
            Ok(_) => spec_search(t, job, ops, cmd),
        },
        InstallStep::TempDirCreated { asset, checksum, result } => match result {
            Err(e) => fails_with(ops, name, name + ": tmp dir: "@ + e@) && cmd is Finish,
            Ok(_) => {
                &&& ops.len() == 1
                &&& is_sized_downloading(ops[0], name, asset.size)
                &&& cmd == InstallCommand::FetchAsset { asset, checksum }
            },
        },
        InstallStep::AssetFetched { asset, checksum, outcome } => match spec_fetch_result(
            name,
            asset.browser_download_url@,
            outcome,
        ) {
            Err(m) => fails_with(ops, name, m) && cmd is Finish,
            Ok(data) => if !size_matches(asset.size, data.len()) {
                fails_with(ops, name, spec_size_error(name, asset.size, data.len())) && cmd is Finish
            } else {
                &&& ops.len() == 2
                &&& is_sized_action(ops[0], name, t.log_size_verified@, data.len() as u64)
                &&& match checksum {
                    Some(c) => {
                        &&& is_action(ops[1], name, t.log_sha256_checking@)
                        &&& cmd matches InstallCommand::FetchChecksum { asset: a, checksum: cc, data: d }
                        &&& a == asset
                        &&& cc == c
                        &&& d@ == data
                    },
                    None => {
                        &&& is_action(ops[1], name, t.log_no_sha256@)
                        &&& cmd matches InstallCommand::WriteTemp { asset: a, data: d }
                        &&& a == asset
                        &&& d@ == data
                    },
                }
            },
        },
        InstallStep::ChecksumFetched { asset, checksum, data, outcome } => match spec_fetch_result(
            name,
            checksum.browser_download_url@,
            outcome,
        ) {
            Err(m) => fails_with(ops, name, m) && cmd is Finish,
            Ok(file) => if !digest_matches(data@, file) {
                fails_with(ops, name, spec_digest_error(name, data@, file)) && cmd is Finish
            } else {
                &&& ops.len() == 1
                &&& is_action(ops[0], name, t.log_sha256_ok@)
                &&& cmd matches InstallCommand::WriteTemp { asset: a, data: d }
                &&& a == asset
                &&& d@ == data@
            },
        },
        InstallStep::TempWritten { asset, result } => match result {
            Err(e) => fails_with(ops, name, name + ": écriture tmp: "@ + e@) && cmd is Finish,
            Ok(_) => if has_suffix(asset.name@, ".zip"@) {
                &&& ops.len() == 1
                &&& is_action(ops[0], name, t.log_extracting_zip@)
                &&& cmd matches InstallCommand::Extract { asset_name }
                &&& asset_name@ == asset.name@
            } else {
                &&& ops.len() == 1
                &&& is_path_action(ops[0], name, t.log_copying_to@, asset.name@)
                &&& cmd matches InstallCommand::Copy { asset_name }
                &&& asset_name@ == asset.name@
            },
        },
        InstallStep::Placed { zip, result } => match result {
            Err(e) => fails_with(
                ops,
                name,
                name + (if zip {
                    ": zip: "@
                } else {
                    ": copie: "@
                }) + e@,
            ) && cmd is Finish,
            Ok(exe) => {
                &&& ops.len() == 1
                &&& is_action(ops[0], name, replaced(t.log_copying_lang@, "{lang}"@, job.language@))
                &&& cmd matches InstallCommand::CopyLanguage { candidates, exe_path }
                &&& views(candidates@) == spec_lang_candidates(job.lang_folder@, job.language@)
                &&& exe_path@ == exe@
            },
        },
        InstallStep::LanguageCopied { exe_path, now } => spec_after_language(
            t,
            options,
            job,
            exe_path@,
            now,
            ops,
            cmd,
        ),
        InstallStep::DesktopShortcutDone { exe_path, now } => spec_after_desktop(
            t,
            options,
            job,
            exe_path@,
            now,
            ops,
            cmd,
        ),
        InstallStep::StartMenuShortcutDone { exe_path, now } => spec_record(
            t,
            job,
            exe_path@,
            now,
            ops,
            cmd,
        ),
        InstallStep::RecordWritten => {
            &&& ops.len() == 2
            &&& is_set_done(ops[0], name, name)
            &&& is_action(ops[1], name, t.log_install_done@)
            &&& cmd is Finish
        },
    }
}

fn act(app: &str, message: String) -> (op: LogOp)
    ensures
        is_action(op, app@, message@),
{
    LogOp::Action { app: string_of(app), message }
}

fn fail(app: &str, text: String) -> (r: (Vec<LogOp>, InstallCommand))
    ensures
        fails_with(r.0@, app@, text@),
        r.1 is Finish,
{
    let mut ops = Vec::new();
    ops.push(LogOp::SetStatus { app: string_of(app), status: InstallStatus::Error(text) });
    (ops, InstallCommand::Finish)
}

fn search(t: &Translations, job: &ProgramInstall, mut ops: Vec<LogOp>) -> (r: (
    Vec<LogOp>,
    InstallCommand,
))
    requires
        ops@.len() == 0,
    ensures
        spec_search(*t, *job, r.0@, r.1),
{
    let name = job.name.as_str();
    ops.push(act(name, string_of(t.log_searching_asset)));
    match &job.release {
        None => {
            let m = concat2(name, ": ");
            let m = concat2(m.as_str(), t.log_no_release);
            ops.push(LogOp::SetStatus { app: string_of(name), status: InstallStatus::Error(m) });
            (ops, InstallCommand::Finish)
        },
        Some(rel) => {
            proof {
                lemma_best_asset_is_best(rel.assets@);
            }
            match pick_windows_asset_index(rel.assets.as_slice()) {
                None => {
                    let m = concat2(name, ": ");
                    let m = concat2(m.as_str(), t.log_no_windows_asset);
                    ops.push(
                        LogOp::SetStatus { app: string_of(name), status: InstallStatus::Error(m) },
                    );
                    (ops, InstallCommand::Finish)
                },
                Some(i) => {
                    let asset = copy_asset(&rel.assets[i]);
                    let checksum = match find_checksum_asset(rel.assets.as_slice(), asset.name.as_str()) {
                        Some(j) => Some(copy_asset(&rel.assets[j])),
                        None => None,
                    };
                    let template = replace(t.log_asset_info, "{asset}", asset.name.as_str());
                    ops.push(
                        LogOp::SizedAction { app: string_of(name), template, bytes: asset.size },
                    );
                    (ops, InstallCommand::CreateTempDir { asset, checksum })
                },
            }
        },
    }
}

fn record(t: &Translations, job: &ProgramInstall, exe_path: String, now: u64, mut ops: Vec<LogOp>) -> (r: (
    Vec<LogOp>,
    InstallCommand,
))
    ensures
        r.0@.len() >= ops@.len(),
        r.0@.subrange(0, ops@.len() as int) == ops@,
        spec_record(*t, *job, exe_path@, now, r.0@.subrange(ops@.len() as int, r.0@.len() as int), r.1),
{
    let ghost before = ops@;
    ops.push(act(job.name.as_str(), string_of(t.log_writing_record)));
    let rec = InstallRecord {
        version: version_label(&job.release),
        exe_path,
        installed_at: decimal_string(now),
    };
    assert(ops@.subrange(0, before.len() as int) =~= before);
    assert(ops@.subrange(before.len() as int, ops@.len() as int) =~= seq![ops@.last()]);
    (ops, InstallCommand::WriteRecord { record: rec })
}

fn after_desktop(
    t: &Translations,
    options: &InstallOptions,
    job: &ProgramInstall,
    exe_path: String,
    now: u64,
    mut ops: Vec<LogOp>,
) -> (r: (Vec<LogOp>, InstallCommand))
    ensures
        r.0@.len() >= ops@.len(),
        r.0@.subrange(0, ops@.len() as int) == ops@,
        spec_after_desktop(
            *t,
            *options,
            *job,
            exe_path@,
            now,
            r.0@.subrange(ops@.len() as int, r.0@.len() as int),
            r.1,
        ),
{
    if options.quicklaunch_shortcut {
        let ghost before = ops@;
        ops.push(act(job.name.as_str(), string_of(t.log_creating_start)));
        assert(ops@.subrange(0, before.len() as int) =~= before);
        assert(ops@.subrange(before.len() as int, ops@.len() as int) =~= seq![ops@.last()]);
        (ops, InstallCommand::StartMenuShortcut { exe_path })
    } else {
        record(t, job, exe_path, now, ops)
    }
}

fn after_language(
    t: &Translations,
    options: &InstallOptions,
    job: &ProgramInstall,
    exe_path: String,
    now: u64,
) -> (r: (Vec<LogOp>, InstallCommand))
    ensures
        spec_after_language(*t, *options, *job, exe_path@, now, r.0@, r.1),
{
    let name = job.name.as_str();
    let mut ops = Vec::new();
    ops.push(
        LogOp::SetStatus {
            app: string_of(name),
            status: InstallStatus::Installing(concat2("Raccourcis ", name)),
        },
    );
    if options.desktop_shortcut {
        ops.push(act(name, string_of(t.log_creating_desktop)));
        (ops, InstallCommand::DesktopShortcut { exe_path })
    } else {
        let ghost before = ops@;
        let r = after_desktop(t, options, job, exe_path, now, ops);
        assert(r.0@[0] == before[0]);
        r
    }
}

/// One step of the installation of a program: the log changes and the next
/// command for the outcome of the previous command.
pub fn install_step(
    t: &Translations,
    options: &InstallOptions,
    job: &ProgramInstall,
    dirs: &InstallDirsText,
    step: InstallStep,
) -> (r: (Vec<LogOp>, InstallCommand))
    ensures
        spec_install_step(*t, *options, *job, *dirs, step, r.0@, r.1),
{
    let name = job.name.as_str();
    match step {
        InstallStep::Begin => {
            let mut ops = Vec::new();
            ops.push(act(name, replace(t.log_starting_install, "{branch}", job.branch.as_str())));
            ops.push(
                LogOp::SetStatus {
                    app: string_of(name),
                    status: InstallStatus::Downloading(string_of(name)),
                },
            );
            ops.push(
                act(name, replace(t.log_creating_install_dir, "{path}", dirs.install_dir.as_str())),
            );
            (ops, InstallCommand::CreateInstallDir)
        },
        InstallStep::InstallDirCreated(r) => match r {
            Err(e) => fail(name, concat2("mkdir install: ", e.as_str())),
            Ok(_) => {
                let mut ops = Vec::new();
                ops.push(
                    act(name, replace(t.log_creating_data_dir, "{path}", dirs.appdata_dir.as_str())),
                );
                (ops, InstallCommand::CreateDataDir)
            },
        },
        InstallStep::DataDirCreated(r) => match r {
            Err(e) => fail(name, concat2("mkdir appdata: ", e.as_str())),
            Ok(_) => {
                let url = certificate_url(name, job.branch.as_str());
                let mut ops = Vec::new();
                ops.push(act(name, replace(t.log_checking_cert, "{url}", url.as_str())));
                (ops, InstallCommand::CheckCertificate { url })
            },
        },
        InstallStep::CertificateChecked { url, exists } => {
            if exists {
                let mut ops = Vec::new();
                ops.push(
                    LogOp::SetStatus {
                        app: string_of(name),
                        status: InstallStatus::Installing(concat2("Certificat ", name)),
                    },
                );
                ops.push(act(name, string_of(t.log_installing_cert)));
                (ops, InstallCommand::InstallCertificate { url })
            } else {
                search(t, job, Vec::new())
            }
        },
        InstallStep::CertificateInstalled(r) => match r {
            Err(e) => fail(name, concat2("Certificat: ", e.as_str())),
            Ok(_) => search(t, job, Vec::new()),
        },
        InstallStep::TempDirCreated { asset, checksum, result } => match result {
            Err(e) => {
                let m = concat2(name, ": tmp dir: ");
                fail(name, concat2(m.as_str(), e.as_str()))
            },
            Ok(_) => {
                let mut ops = Vec::new();
                ops.push(LogOp::SizedDownloading { app: string_of(name), bytes: asset.size });
                (ops, InstallCommand::FetchAsset { asset, checksum })
            },
        },
        InstallStep::AssetFetched { asset, checksum, outcome } => {
            match fetch_result(name, asset.browser_download_url.as_str(), outcome) {
                Err(m) => fail(name, m),
                Ok(data) => {
                    let actual = data.len() as u64;
                    match check_size(name, asset.size, actual) {
                        Err(m) => fail(name, m),
                        Ok(_) => {
                            let mut ops = Vec::new();
                            ops.push(
                                LogOp::SizedAction {
                                    app: string_of(name),
                                    template: string_of(t.log_size_verified),
                                    bytes: actual,
                                },
                            );
                            match checksum {
                                Some(c) => {
                                    ops.push(act(name, string_of(t.log_sha256_checking)));
                                    (ops, InstallCommand::FetchChecksum { asset, checksum: c, data })
                                },
                                None => {
                                    ops.push(act(name, string_of(t.log_no_sha256)));
                                    (ops, InstallCommand::WriteTemp { asset, data })
                                },
                            }
                        },
                    }
                },
            }
        },
        InstallStep::ChecksumFetched { asset, checksum, data, outcome } => {
            match fetch_result(name, checksum.browser_download_url.as_str(), outcome) {
                Err(m) => fail(name, m),
                Ok(file) => match check_digest(name, data.as_slice(), file.as_slice()) {
                    Err(m) => fail(name, m),
                    Ok(_) => {
                        let mut ops = Vec::new();
                        ops.push(act(name, string_of(t.log_sha256_ok)));
                        (ops, InstallCommand::WriteTemp { asset, data })
                    },
                },
            }
        },
        InstallStep::TempWritten { asset, result } => match result {
            Err(e) => {
                let m = concat2(name, ": écriture tmp: ");
                fail(name, concat2(m.as_str(), e.as_str()))
            },
            Ok(_) => {
                let mut ops = Vec::new();
                if is_zip(asset.name.as_str()) {
                    ops.push(act(name, string_of(t.log_extracting_zip)));
                    (ops, InstallCommand::Extract { asset_name: asset.name })
                } else {
                    ops.push(
                        LogOp::PathAction {
                            app: string_of(name),
                            template: string_of(t.log_copying_to),
                            file_name: asset.name.clone(),
                        },
                    );
                    (ops, InstallCommand::Copy { asset_name: asset.name })
                }
            },
        },
        InstallStep::Placed { zip, result } => match result {
            Err(e) => {
                let m = if zip {
                    concat2(name, ": zip: ")
                } else {
                    concat2(name, ": copie: ")
                };
                fail(name, concat2(m.as_str(), e.as_str()))
            },
            Ok(exe_path) => {
                let mut ops = Vec::new();
                ops.push(act(name, replace(t.log_copying_lang, "{lang}", job.language.as_str())));
                let candidates = lang_file_candidates(
                    job.lang_folder.as_str(),
                    job.language.as_str(),
                );
                (ops, InstallCommand::CopyLanguage { candidates, exe_path })
            },
        },
        InstallStep::LanguageCopied { exe_path, now } => after_language(t, options, job, exe_path, now),
        InstallStep::DesktopShortcutDone { exe_path, now } => {
            let r = after_desktop(t, options, job, exe_path, now, Vec::new());
            assert(r.0@.subrange(0, r.0@.len() as int) =~= r.0@);
            r
        },
        InstallStep::StartMenuShortcutDone { exe_path, now } => {
            let r = record(t, job, exe_path, now, Vec::new());
            assert(r.0@.subrange(0, r.0@.len() as int) =~= r.0@);
            r
        },
        InstallStep::RecordWritten => {
            let mut ops = Vec::new();
            ops.push(
                LogOp::SetStatus {
                    app: string_of(name),
                    status: InstallStatus::Done(string_of(name)),
                },
            );
            ops.push(act(name, string_of(t.log_install_done)));
            (ops, InstallCommand::Finish)
        },
    }
}

// ───────────────────────────── pre-check ─────────────────────────────

/// The size of the asset that would be installed for a program (0 when
/// there is no release or no suitable asset).
pub open spec fn download_size(p: ProgramInstall) -> nat {
    match p.release {
        Some(rel) => match best_asset(rel.assets@) {
            Some(i) => rel.assets@[i].size as nat,
            None => 0,
        },
        None => 0,
    }
}

/// The total size of what the installation will download.
pub open spec fn total_download(programs: Seq<ProgramInstall>) -> nat
    decreases programs.len(),
{
    if programs.len() == 0 {
        0
    } else {
        total_download(programs.subrange(0, programs.len() - 1)) + download_size(
            programs[programs.len() - 1],
        )
    }
}

/// The total download size, or none when it does not fit in 64 bits.
pub fn total_download_size(programs: &Vec<ProgramInstall>) -> (r: Option<u64>)
    ensures
        match r {
            Some(n) => n == total_download(programs@),
            None => total_download(programs@) > u64::MAX,
        },
{
    let mut total: u64 = 0;
    let mut i: usize = 0;
    while i < programs.len()
        invariant
            i <= programs.len(),
            total == total_download(programs@.subrange(0, i as int)),
        decreases programs.len() - i,
    {
        let ghost pre = programs@.subrange(0, i + 1);
        assert(pre.subrange(0, i as int) =~= programs@.subrange(0, i as int));
        let size: u64 = match &programs[i].release {
            Some(rel) => match pick_windows_asset_index(rel.assets.as_slice()) {
                Some(k) => {
                    proof {
                        lemma_best_asset_is_best(rel.assets@);
                    }
                    rel.assets[k].size
                },
                None => 0,
            },
            None => 0,
        };
        match total.checked_add(size) {
            Some(n) => {
                total = n;
            },
            None => {
                proof {
                    lemma_total_download_monotone(programs@, i + 1);
                }
                return None;
            },
        }
        i = i + 1;
    }
    assert(programs@.subrange(0, programs@.len() as int) =~= programs@);
    Some(total)
}

proof fn lemma_total_download_monotone(programs: Seq<ProgramInstall>, k: int)
    requires
        0 <= k <= programs.len(),
    ensures
        total_download(programs.subrange(0, k)) <= total_download(programs),
    decreases programs.len() - k,
{
    if k < programs.len() {
        lemma_total_download_monotone(programs, k + 1);
        let pre = programs.subrange(0, k + 1);
        assert(pre.subrange(0, k) =~= programs.subrange(0, k));
    } else {
        assert(programs.subrange(0, k) =~= programs);
    }
}

/// The outcome of the previous pre-check command.
pub enum PrecheckStep {
    Begin,
    /// The latency of GitHub in milliseconds, or why it is unreachable.
    Connectivity(Result<u64, String>),
    /// The measured download rate in bytes per second.
    SpeedMeasured { total: u64, result: Result<u64, String> },
}

/// What to do next in the pre-check.
pub enum PrecheckCommand {
    /// Probe GitHub; answer `Connectivity`.
    CheckConnectivity,
    /// Measure the download rate; answer `SpeedMeasured` with `total`.
    MeasureSpeed { total: u64 },
    /// The pre-check is over.
    Finish,
}

/// The end of the pre-check: its line is done.
pub open spec fn precheck_done(t: Translations, op: LogOp) -> bool {
    is_set_done(op, t.precheck_title@, t.precheck_done@)
}

/// The decisions of `precheck_step`.
pub open spec fn spec_precheck_step(
    t: Translations,
    programs: Seq<ProgramInstall>,
    step: PrecheckStep,
    ops: Seq<LogOp>,
    cmd: PrecheckCommand,
) -> bool {
    let key = t.precheck_title@;
    match step {
        PrecheckStep::Begin => {
            &&& ops.len() == 2
            &&& ops[0] matches LogOp::InsertFirst { app, status: InstallStatus::Installing(x) }
            &&& app@ == key
            &&& x@ == key
            &&& is_action(ops[1], key, t.precheck_checking_conn@)
            &&& cmd is CheckConnectivity
        },
        PrecheckStep::Connectivity(r) => {
            let total = total_download(programs);
            let first = match r {
                Ok(ms) => is_action(
                    ops[0],
                    key,
                    replaced(t.precheck_conn_ok@, "{ms}"@, decimal(ms as nat)),
                ),
                Err(e) => is_action(ops[0], key, replaced(t.precheck_conn_failed@, "{error}"@, e@)),
            };
            let n: int = if total > 0 {
                2
            } else {
                1
            };
            &&& first
            &&& total > 0 ==> is_sized_action(ops[1], key, t.precheck_total_size@, total as u64)
            &&& match r {
                Ok(_) => {
                    &&& ops.len() == n + 1
                    &&& is_action(ops[n], key, t.precheck_speed_test@)
                    &&& cmd == PrecheckCommand::MeasureSpeed { total: total as u64 }
                },
                Err(_) => ops.len() == n + 1 && precheck_done(t, ops[n]) && cmd is Finish,
            }
        },
        PrecheckStep::SpeedMeasured { total, result } => {
            let rate = match result {
                Ok(bps) => bps,
                Err(_) => 0,
            };
            let n: int = if rate == 0 {
                0
            } else if total == 0 {
                1
            } else {
                2
            };
            &&& ops.len() == n + 1
            &&& rate > 0 ==> is_speed_action(ops[0], key, t.precheck_speed@, rate)
            &&& rate > 0 && total > 0 ==> is_action(
                ops[1],
                key,
                replaced(t.precheck_eta@, "{eta}"@, spec_format_eta((total / rate) as nat)),
            )
            &&& precheck_done(t, ops[n])
            &&& cmd is Finish
        },
    }
}

/// One step of the pre-check before an installation: connectivity, total
/// download size, and with a connection the download rate and the
/// estimated duration.
pub fn precheck_step(t: &Translations, programs: &Vec<ProgramInstall>, step: PrecheckStep) -> (r: (
    Vec<LogOp>,
    PrecheckCommand,
))
    requires
        total_download(programs@) <= u64::MAX,
    ensures
        spec_precheck_step(*t, programs@, step, r.0@, r.1),
{
    let key = t.precheck_title;
    let mut ops: Vec<LogOp> = Vec::new();
    match step {
        PrecheckStep::Begin => {
            ops.push(
                LogOp::InsertFirst {
                    app: string_of(key),
                    status: InstallStatus::Installing(string_of(key)),
                },
            );
            ops.push(act(key, string_of(t.precheck_checking_conn)));
            (ops, PrecheckCommand::CheckConnectivity)
        },
        PrecheckStep::Connectivity(r) => {
            let ok = r.is_ok();
            match r {
                Ok(ms) => {
                    let ms_text = crate::text::decimal_string(ms);
                    ops.push(act(key, replace(t.precheck_conn_ok, "{ms}", ms_text.as_str())));
                },
                Err(e) => {
                    ops.push(act(key, replace(t.precheck_conn_failed, "{error}", e.as_str())));
                },
            }
            let total = match total_download_size(programs) {
                Some(n) => n,
                None => 0,
            };
            if total > 0 {
                ops.push(
                    LogOp::SizedAction {
                        app: string_of(key),
                        template: string_of(t.precheck_total_size),
                        bytes: total,
                    },
                );
            }
            if ok {
                ops.push(act(key, string_of(t.precheck_speed_test)));
                (ops, PrecheckCommand::MeasureSpeed { total })
            } else {
                ops.push(
                    LogOp::SetStatus {
                        app: string_of(key),
                        status: InstallStatus::Done(string_of(t.precheck_done)),
                    },
                );
                (ops, PrecheckCommand::Finish)
            }
        },
        PrecheckStep::SpeedMeasured { total, result } => {
            let rate: u64 = match result {
                Ok(bps) => bps,
                Err(_) => 0,
            };
            if rate > 0 {
                ops.push(
                    LogOp::SpeedAction {
                        app: string_of(key),
                        template: string_of(t.precheck_speed),
                        bytes_per_sec: rate,
                    },
                );
                if total > 0 {
                    let eta = format_eta(total / rate);
                    ops.push(act(key, replace(t.precheck_eta, "{eta}", eta.as_str())));
                }
            }
            ops.push(
                LogOp::SetStatus {
                    app: string_of(key),
                    status: InstallStatus::Done(string_of(t.precheck_done)),
                },
            );
            (ops, PrecheckCommand::Finish)
        },
    }
}

// ───────────────────────────── uninstallation ─────────────────────────────

/// The directories of a program being removed, as shown to the user.
pub struct UninstallDirsText {
    pub install_dir: String,
    pub tmp_dir: String,
    pub appdata_dir: String,
}

/// What removing a directory gave.
pub enum Removal {
    /// It was removed.
    Removed,
    /// It did not exist.
    Missing,
    /// It could not be removed.
    Failed(String),
}

/// The outcome of the previous uninstall command.
pub enum UninstallStep {
    Begin,
    InstallDirRemoved(Removal),
    ShortcutsRemoved,
    TempRemoved,
    DataDirRemoved(Removal),
}

/// What to do next in an uninstallation.
pub enum UninstallCommand {
    /// Remove the install directory if it exists; answer `InstallDirRemoved`.
    RemoveInstallDir,
    /// Remove the desktop and Start menu shortcuts; answer `ShortcutsRemoved`.
    RemoveShortcuts,
    /// Remove the download directory if it exists; answer `TempRemoved`.
    RemoveTempDir,
    /// Remove the data directory if it exists; answer `DataDirRemoved`.
    RemoveDataDir,
    /// The program is done with.
    Finish,
}

/// The message for a directory that could not be removed.
pub open spec fn spec_cannot_remove(t: Translations, path: Seq<char>, e: Seq<char>) -> Seq<char> {
    replaced(replaced(t.log_cannot_remove@, "{path}"@, path), "{error}"@, e)
}

/// The decisions of `uninstall_step`.
pub open spec fn spec_uninstall_step(
    t: Translations,
    name: Seq<char>,
    dirs: UninstallDirsText,
    step: UninstallStep,
    ops: Seq<LogOp>,
    cmd: UninstallCommand,
) -> bool {
    match step {
        UninstallStep::Begin => {
            &&& ops.len() == 3
            &&& is_action(ops[0], name, replaced(t.log_starting_uninstall@, "{name}"@, name))
            &&& is_set_installing(ops[1], name, "Désinstallation "@ + name)
            &&& is_action(ops[2], name, replaced(t.log_removing@, "{path}"@, dirs.install_dir@))
            &&& cmd is RemoveInstallDir
        },
        UninstallStep::InstallDirRemoved(r) => {
            let n: int = match r {
                Removal::Removed => 0,
                _ => 1,
            };
            &&& ops.len() == n + 1
            &&& r matches Removal::Failed(e) ==> is_action(
                ops[0],
                name,
                spec_cannot_remove(t, dirs.install_dir@, e@),
            )
            &&& r is Missing ==> is_action(
                ops[0],
                name,
                replaced(t.log_dir_already_removed@, "{path}"@, dirs.install_dir@),
            )
            &&& is_action(ops[n], name, t.log_removing_shortcuts@)
            &&& cmd is RemoveShortcuts
        },
        UninstallStep::ShortcutsRemoved => {
            &&& ops.len() == 1
            &&& is_action(ops[0], name, replaced(t.log_removing@, "{path}"@, dirs.tmp_dir@))
            &&& cmd is RemoveTempDir
        },
        UninstallStep::TempRemoved => {
            &&& ops.len() == 1
            &&& is_action(ops[0], name, replaced(t.log_removing@, "{path}"@, dirs.appdata_dir@))
            &&& cmd is RemoveDataDir
        },
        UninstallStep::DataDirRemoved(r) => {
            let n: int = match r {
                Removal::Failed(_) => 1,
                _ => 0,
            };
            &&& ops.len() == n + 2
            &&& r matches Removal::Failed(e) ==> is_action(
                ops[0],
                name,
                spec_cannot_remove(t, dirs.appdata_dir@, e@),
            )
            &&& is_set_done(ops[n], name, name)
            &&& is_action(ops[n + 1], name, t.log_uninstall_done@)
            &&& cmd is Finish
        },
    }
}

fn cannot_remove(t: &Translations, path: &str, e: &str) -> (r: String)
    ensures
        r@ == spec_cannot_remove(*t, path@, e@),
{
    let m = replace(t.log_cannot_remove, "{path}", path);
    replace(m.as_str(), "{error}", e)
}

/// One step of the removal of a program: its install directory, its
/// shortcuts, its download directory and its data directory, each logged.
pub fn uninstall_step(t: &Translations, name: &str, dirs: &UninstallDirsText, step: UninstallStep) -> (r: (
    Vec<LogOp>,
    UninstallCommand,
))
    ensures
        spec_uninstall_step(*t, name@, *dirs, step, r.0@, r.1),
{
    let mut ops: Vec<LogOp> = Vec::new();
    match step {
        UninstallStep::Begin => {
            ops.push(act(name, replace(t.log_starting_uninstall, "{name}", name)));
            ops.push(
                LogOp::SetStatus {
                    app: string_of(name),
                    status: InstallStatus::Installing(concat2("Désinstallation ", name)),
                },
            );
            ops.push(act(name, replace(t.log_removing, "{path}", dirs.install_dir.as_str())));
            (ops, UninstallCommand::RemoveInstallDir)
        },
        UninstallStep::InstallDirRemoved(r) => {
            match r {
                Removal::Removed => {},
                Removal::Failed(e) => {
                    ops.push(act(name, cannot_remove(t, dirs.install_dir.as_str(), e.as_str())));
                },
                Removal::Missing => {
                    ops.push(
                        act(
                            name,
                            replace(t.log_dir_already_removed, "{path}", dirs.install_dir.as_str()),
                        ),
                    );
                },
            }
            ops.push(act(name, string_of(t.log_removing_shortcuts)));
            (ops, UninstallCommand::RemoveShortcuts)
        },
        UninstallStep::ShortcutsRemoved => {
            ops.push(act(name, replace(t.log_removing, "{path}", dirs.tmp_dir.as_str())));
            (ops, UninstallCommand::RemoveTempDir)
        },
        UninstallStep::TempRemoved => {
            ops.push(act(name, replace(t.log_removing, "{path}", dirs.appdata_dir.as_str())));
            (ops, UninstallCommand::RemoveDataDir)
        },
        UninstallStep::DataDirRemoved(r) => {
            match r {
                Removal::Failed(e) => {
                    ops.push(act(name, cannot_remove(t, dirs.appdata_dir.as_str(), e.as_str())));
                },
                _ => {},
            }
            ops.push(
                LogOp::SetStatus {
                    app: string_of(name),
                    status: InstallStatus::Done(string_of(name)),
                },
            );
            ops.push(act(name, string_of(t.log_uninstall_done)));
            (ops, UninstallCommand::Finish)
        },
    }
}

// ───────────────────────────── how each flow ends ─────────────────────────────

/// The op closes the program's line: its status becomes done or an error.
pub open spec fn closes_line(op: LogOp, app: Seq<char>) -> bool {
    ||| is_set_done(op, app, app)
    ||| op matches LogOp::SetStatus { app: a, status: InstallStatus::Error(_) } && a@ == app
}

/// An installation stops only once the program's line is closed: the step
/// that answers `Finish` marks the program done or in error.
pub proof fn law_install_ends_closed(
    t: Translations,
    options: InstallOptions,
    job: ProgramInstall,
    dirs: InstallDirsText,
    step: InstallStep,
    ops: Seq<LogOp>,
    cmd: InstallCommand,
)
    requires
        spec_install_step(t, options, job, dirs, step, ops, cmd),
        cmd is Finish,
    ensures
        exists|i: int| 0 <= i < ops.len() && #[trigger] closes_line(ops[i], job.name@),
{
    let name = job.name@;
    if closes_line(ops[0], name) {
        assert(closes_line(ops[0], name));
    } else {
        assert(closes_line(ops[1], name));
    }
}

/// The pre-check stops only with its own line done.
pub proof fn law_precheck_ends_done(
    t: Translations,
    programs: Seq<ProgramInstall>,
    step: PrecheckStep,
    ops: Seq<LogOp>,
    cmd: PrecheckCommand,
)
    requires
        spec_precheck_step(t, programs, step, ops, cmd),
        cmd is Finish,
    ensures
        ops.len() >= 1,
        precheck_done(t, ops.last()),
{
}

/// An uninstallation stops only with the program's line done, followed by
/// the closing message.
pub proof fn law_uninstall_ends_done(
    t: Translations,
    name: Seq<char>,
    dirs: UninstallDirsText,
    step: UninstallStep,
    ops: Seq<LogOp>,
    cmd: UninstallCommand,
)
    requires
        spec_uninstall_step(t, name, dirs, step, ops, cmd),
        cmd is Finish,
    ensures
        ops.len() >= 2,
        is_set_done(ops[ops.len() - 2], name, name),
        is_action(ops.last(), name, t.log_uninstall_done@),
{
}

/// The place of a command in the installation: directories, certificate,
/// download, extraction or copy, language file, shortcuts, record.
pub open spec fn command_rank(c: InstallCommand) -> int {
    match c {
        InstallCommand::CreateInstallDir => 1,
        InstallCommand::CreateDataDir => 2,
        InstallCommand::CheckCertificate { .. } => 3,
        InstallCommand::InstallCertificate { .. } => 4,
        InstallCommand::CreateTempDir { .. } => 5,
        InstallCommand::FetchAsset { .. } => 6,
        InstallCommand::FetchChecksum { .. } => 7,
        InstallCommand::WriteTemp { .. } => 8,
        InstallCommand::Extract { .. } => 9,
        InstallCommand::Copy { .. } => 9,
        InstallCommand::CopyLanguage { .. } => 10,
        InstallCommand::DesktopShortcut { .. } => 11,
        InstallCommand::StartMenuShortcut { .. } => 12,
        InstallCommand::WriteRecord { .. } => 13,
        InstallCommand::Finish => 14,
    }
}

/// The place of the command whose outcome a step reports (0 before any).
pub open spec fn step_rank(s: InstallStep) -> int {
    match s {
        InstallStep::Begin => 0,
        InstallStep::InstallDirCreated(_) => 1,
        InstallStep::DataDirCreated(_) => 2,
        InstallStep::CertificateChecked { .. } => 3,
        InstallStep::CertificateInstalled(_) => 4,
        InstallStep::TempDirCreated { .. } => 5,
        InstallStep::AssetFetched { .. } => 6,
        InstallStep::ChecksumFetched { .. } => 7,
        InstallStep::TempWritten { .. } => 8,
        InstallStep::Placed { .. } => 9,
        InstallStep::LanguageCopied { .. } => 10,
        InstallStep::DesktopShortcutDone { .. } => 11,
        InstallStep::StartMenuShortcutDone { .. } => 12,
        InstallStep::RecordWritten => 13,
    }
}

/// The installation only moves forward: the command that follows a step
/// comes later in the order directories, certificate, download, extraction
/// or copy, language file, shortcuts, record, end.
pub proof fn law_install_moves_forward(
    t: Translations,
    options: InstallOptions,
    job: ProgramInstall,
    dirs: InstallDirsText,
    step: InstallStep,
    ops: Seq<LogOp>,
    cmd: InstallCommand,
)
    requires
        spec_install_step(t, options, job, dirs, step, ops, cmd),
    ensures
        command_rank(cmd) > step_rank(step),
{
}


/// Once the download is written, an asset whose name ends with `.zip` is
/// extracted and any other asset is copied, each under the asset's own
/// name: the choice is made on the asset, whatever the program is called.
pub proof fn law_zip_assets_are_extracted(
    t: Translations,
    options: InstallOptions,
    job: ProgramInstall,
    dirs: InstallDirsText,
    asset: ReleaseAsset,
    ops: Seq<LogOp>,
    cmd: InstallCommand,
)
    requires
        spec_install_step(t, options, job, dirs, InstallStep::TempWritten { asset, result: Ok(()) }, ops, cmd),
    ensures
        (asset.name@.len() >= 4 && asset.name@.subrange(asset.name@.len() - 4, asset.name@.len() as int)
            == seq!['.', 'z', 'i', 'p']) ==> (cmd matches InstallCommand::Extract { asset_name }
            && asset_name@ == asset.name@),
        !(asset.name@.len() >= 4 && asset.name@.subrange(asset.name@.len() - 4, asset.name@.len() as int)
            == seq!['.', 'z', 'i', 'p']) ==> (cmd matches InstallCommand::Copy { asset_name }
            && asset_name@ == asset.name@),
{
    reveal_strlit(".zip");
    assert(".zip"@ =~= seq!['.', 'z', 'i', 'p']);
    let n = asset.name@;
    if n.len() >= 4 && n.subrange(n.len() - 4, n.len() as int) == seq!['.', 'z', 'i', 'p'] {
        assert(has_suffix(n, ".zip"@));
    } else {
        assert(!has_suffix(n, ".zip"@));
    }
}

/// An uninstallation goes through its commands in one order, whatever each
/// removal gave: the install directory, the shortcuts, the download
/// directory, the data directory, and only then the end.
pub proof fn law_uninstall_order(
    t: Translations,
    name: Seq<char>,
    dirs: UninstallDirsText,
    step: UninstallStep,
    ops: Seq<LogOp>,
    cmd: UninstallCommand,
)
    requires
        spec_uninstall_step(t, name, dirs, step, ops, cmd),
    ensures
        step is Begin ==> cmd is RemoveInstallDir,
        step is InstallDirRemoved ==> cmd is RemoveShortcuts,
        step is ShortcutsRemoved ==> cmd is RemoveTempDir,
        step is TempRemoved ==> cmd is RemoveDataDir,
        step is DataDirRemoved ==> cmd is Finish,
        cmd is Finish <==> step is DataDirRemoved,
{
}

} // verus!
