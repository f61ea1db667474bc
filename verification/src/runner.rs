//! The pieces of the installation and uninstallation that decide: download
//! outcomes, size and checksum checks, language file candidates, the
//! executable of an archive, and the texts of durations.
use vstd::prelude::*;

use crate::digest::{hex_lower, sha256_hex, sha256_of};
use crate::github::{is_success, raw_url, spec_raw_url, status_is_success, GithubRelease};
use crate::text::{
    concat2, contains, decimal, decimal2, ends_with, first_token, first_word, from_utf8_lossy,
    has_infix, has_suffix, lowercase_of, push_char, push_decimal, push_decimal2, push_str,
    str_eq, string_of, to_lowercase, utf8_lossy, views,
};

verus! {

// ───────────────────────────── durations ─────────────────────────────

/// `42s`, `3m 05s` or `2h 07m`.
pub open spec fn spec_format_eta(secs: nat) -> Seq<char> {
    if secs < 60 {
        decimal(secs) + seq!['s']
    } else if secs < 3600 {
        decimal(secs / 60) + seq!['m', ' '] + decimal2(secs % 60) + seq!['s']
    } else {
        decimal(secs / 3600) + seq!['h', ' '] + decimal2((secs % 3600) / 60) + seq!['m']
    }
}

/// Text of an estimated duration.
pub fn format_eta(secs: u64) -> (r: String)
    ensures
        r@ == spec_format_eta(secs as nat),
{
    let mut r = String::new();
    if secs < 60 {
        push_decimal(&mut r, secs);
        push_char(&mut r, 's');
    } else if secs < 3600 {
        push_decimal(&mut r, secs / 60);
        push_char(&mut r, 'm');
        push_char(&mut r, ' ');
        push_decimal2(&mut r, secs % 60);
        push_char(&mut r, 's');
    } else {
        push_decimal(&mut r, secs / 3600);
        push_char(&mut r, 'h');
        push_char(&mut r, ' ');
        push_decimal2(&mut r, (secs % 3600) / 60);
        push_char(&mut r, 'm');
    }
    assert(r@ =~= spec_format_eta(secs as nat));
    r
}

// ───────────────────────────── downloads ─────────────────────────────

/// What a download gave.
pub enum FetchOutcome {
    /// The request could not be sent.
    Unreachable(String),
    /// The server answered: its status, the status text and the body, or why
    /// the body could not be read.
    Replied { status: u16, status_text: String, body: Result<Vec<u8>, String> },
}

/// The bytes of a download, or the error text naming the program and the URL.
pub open spec fn spec_fetch_result(name: Seq<char>, url: Seq<char>, o: FetchOutcome) -> Result<
    Seq<u8>,
    Seq<char>,
> {
    match o {
        FetchOutcome::Unreachable(e) => Err(name + ": connexion ("@ + url + "): "@ + e@),
        FetchOutcome::Replied { status, status_text, body } => if !is_success(status) {
            Err(name + ": HTTP "@ + status_text@ + " pour "@ + url)
        } else {
            match body {
                Ok(b) => Ok(b@),
                Err(e) => Err(name + ": lecture ("@ + url + "): "@ + e@),
            }
        },
    }
}

/// A byte result whose view is the given one.
pub open spec fn bytes_result_is(r: Result<Vec<u8>, String>, s: Result<Seq<u8>, Seq<char>>) -> bool {
    match (r, s) {
        (Ok(a), Ok(b)) => a@ == b,
        (Err(a), Err(b)) => a@ == b,
        _ => false,
    }
}

/// The bytes of a download when the server answered with a success.
pub fn fetch_result(name: &str, url: &str, outcome: FetchOutcome) -> (r: Result<Vec<u8>, String>)
    ensures
        bytes_result_is(r, spec_fetch_result(name@, url@, outcome)),
{
    match outcome {
        FetchOutcome::Unreachable(e) => {
            let mut m = string_of(name);
            push_str(&mut m, ": connexion (");
            push_str(&mut m, url);
            push_str(&mut m, "): ");
            push_str(&mut m, e.as_str());
            Err(m)
        },
        FetchOutcome::Replied { status, status_text, body } => {
            if !status_is_success(status) {
                let mut m = string_of(name);
                push_str(&mut m, ": HTTP ");
                push_str(&mut m, status_text.as_str());
                push_str(&mut m, " pour ");
                push_str(&mut m, url);
                Err(m)
            } else {
                match body {
                    Ok(b) => Ok(b),
                    Err(e) => {
                        let mut m = string_of(name);
                        push_str(&mut m, ": lecture (");
                        push_str(&mut m, url);
                        push_str(&mut m, "): ");
                        push_str(&mut m, e.as_str());
                        Err(m)
                    },
                }
            }
        },
    }
}

/// A download has the announced size, unless no size (0) was announced.
pub open spec fn size_matches(expected: u64, actual: nat) -> bool {
    !(expected > 0 && actual != expected)
}

/// Error text for a download of the wrong size.
pub open spec fn spec_size_error(name: Seq<char>, expected: u64, actual: nat) -> Seq<char> {
    name + ": taille incorrecte (attendu "@ + decimal(expected as nat) + " o, reçu "@ + decimal(
        actual,
    ) + " o)"@
}

/// Checks the size of a download against the size the release announced.
pub fn check_size(name: &str, expected: u64, actual: u64) -> (r: Result<(), String>)
    ensures
        size_matches(expected, actual as nat) ==> r is Ok,
        !size_matches(expected, actual as nat) ==> (r matches Err(m) && m@ == spec_size_error(
            name@,
            expected,
            actual as nat,
        )),
{
    if expected > 0 && actual != expected {
        let mut m = string_of(name);
        push_str(&mut m, ": taille incorrecte (attendu ");
        push_decimal(&mut m, expected);
        push_str(&mut m, " o, reçu ");
        push_decimal(&mut m, actual);
        push_str(&mut m, " o)");
        Err(m)
    } else {
        Ok(())
    }
}

/// The digest a checksum file announces: its first word, lower-cased.
pub open spec fn announced_digest(checksum_file: Seq<u8>) -> Seq<char> {
    lowercase_of(first_word(utf8_lossy(checksum_file)))
}

/// The download matches its checksum file: the announced digest is empty
/// (nothing to check) or is the SHA-256 digest of the download.
pub open spec fn digest_matches(data: Seq<u8>, checksum_file: Seq<u8>) -> bool {
    announced_digest(checksum_file).len() == 0 || hex_lower(sha256_of(data)) == announced_digest(
        checksum_file,
    )
}

/// Error text for a download whose digest is not the announced one.
pub open spec fn spec_digest_error(name: Seq<char>, data: Seq<u8>, checksum_file: Seq<u8>) -> Seq<
    char,
> {
    name + ": SHA-256 invalide\n  attendu : "@ + announced_digest(checksum_file)
        + "\n  calculé : "@ + hex_lower(sha256_of(data))
}

/// Whether a computed digest agrees with the announced one: an empty
/// announcement checks nothing.
pub open spec fn digests_agree(expected: Seq<char>, actual: Seq<char>) -> bool {
    expected.len() == 0 || actual == expected
}

/// Error text for a computed digest that is not the announced one.
pub open spec fn spec_digest_mismatch(name: Seq<char>, expected: Seq<char>, actual: Seq<char>) -> Seq<
    char,
> {
    name + ": SHA-256 invalide\n  attendu : "@ + expected + "\n  calculé : "@ + actual
}

/// Compares the announced digest (already lower-cased) with the computed one.
pub fn compare_digests(name: &str, expected: &str, actual: &str) -> (r: Result<(), String>)
    ensures
        digests_agree(expected@, actual@) ==> r is Ok,
        !digests_agree(expected@, actual@) ==> (r matches Err(m) && m@ == spec_digest_mismatch(
            name@,
            expected@,
            actual@,
        )),
{
    let empty = expected.unicode_len() == 0;
    if !empty && !str_eq(actual, expected) {
        let mut m = string_of(name);
        push_str(&mut m, ": SHA-256 invalide\n  attendu : ");
        push_str(&mut m, expected);
        push_str(&mut m, "\n  calculé : ");
        push_str(&mut m, actual);
        Err(m)
    } else {
        Ok(())
    }
}

/// Checks a download against its `.sha256` file.
pub fn check_digest(name: &str, data: &[u8], checksum_file: &[u8]) -> (r: Result<(), String>)
    ensures
        digest_matches(data@, checksum_file@) ==> r is Ok,
        !digest_matches(data@, checksum_file@) ==> (r matches Err(m) && m@ == spec_digest_error(
            name@,
            data@,
            checksum_file@,
        )),
{
    let text = from_utf8_lossy(checksum_file);
    let word = first_token(text.as_str());
    let expected = to_lowercase(word.as_str());
    let actual = sha256_hex(data);
    compare_digests(name, expected.as_str(), actual.as_str())
}

// ───────────────────────────── installed files ─────────────────────────────

/// The version recorded for an installation: the release tag, or `unknown`.
pub open spec fn spec_version_label(release: Option<GithubRelease>) -> Seq<char> {
    match release {
        Some(r) => r.tag_name@,
        None => "unknown"@,
    }
}

/// The version recorded for an installation.
pub fn version_label(release: &Option<GithubRelease>) -> (r: String)
    ensures
        r@ == spec_version_label(*release),
{
    match release {
        Some(r) => string_of(r.tag_name.as_str()),
        None => string_of("unknown"),
    }
}

/// Whether an asset is an archive to extract rather than a file to copy.
pub fn is_zip(asset_name: &str) -> (r: bool)
    ensures
        r == has_suffix(asset_name@, ".zip"@),
{
    ends_with(asset_name, ".zip")
}

/// `<app>.exe`, the executable assumed when an archive holds none.
pub fn default_exe_name(app_name: &str) -> (r: String)
    ensures
        r@ == app_name@ + ".exe"@,
{
    concat2(app_name, ".exe")
}

/// Index of the last entry of an archive that is an `.exe` file.
pub open spec fn last_exe_entry(names: Seq<Seq<char>>) -> Option<int>
    decreases names.len(),
{
    if names.len() == 0 {
        None
    } else if has_suffix(names.last(), ".exe"@) && !has_suffix(names.last(), "/"@) {
        Some(names.len() - 1)
    } else {
        last_exe_entry(names.subrange(0, names.len() - 1))
    }
}

/// The entry of an archive that becomes the installed executable: the last
/// file whose name ends with `.exe`.
pub fn exe_entry(names: &Vec<String>) -> (r: Option<usize>)
    ensures
        match last_exe_entry(views(names@)) {
            Some(i) => r == Some(i as usize),
            None => r is None,
        },
{
    let mut k: usize = names.len();
    assert(views(names@).subrange(0, k as int) =~= views(names@));
    while k > 0
        invariant
            k <= names.len(),
            last_exe_entry(views(names@)) == last_exe_entry(views(names@).subrange(0, k as int)),
        decreases k,
    {
        let ghost pre = views(names@).subrange(0, k as int);
        assert(pre.last() == names@[k - 1]@);
        let n = names[k - 1].as_str();
        if ends_with(n, ".exe") && !ends_with(n, "/") {
            return Some(k - 1);
        }
        assert(pre.subrange(0, pre.len() - 1) =~= views(names@).subrange(0, k - 1));
        k = k - 1;
    }
    None
}

/// The language files to try, in order: the chosen one, then English
/// unless the chosen one is a default file.
pub open spec fn spec_lang_candidates(folder: Seq<char>, language: Seq<char>) -> Seq<Seq<char>> {
    let chosen = folder + seq!['/'] + language;
    if has_infix(language, ".default."@) {
        seq![chosen]
    } else {
        seq![chosen, folder + seq!['/'] + "EN_en.default.toml"@]
    }
}

/// The repository paths of the language files to try for a program.
pub fn lang_file_candidates(folder: &str, language: &str) -> (r: Vec<String>)
    ensures
        views(r@) == spec_lang_candidates(folder@, language@),
{
    let mut v = Vec::new();
    let mut chosen = string_of(folder);
    push_char(&mut chosen, '/');
    push_str(&mut chosen, language);
    let ghost c = chosen@;
    assert(c =~= folder@ + seq!['/'] + language@);
    v.push(chosen);
    assert(views(v@) =~= seq![c]);
    if !contains(language, ".default.") {
        let mut fallback = string_of(folder);
        push_char(&mut fallback, '/');
        push_str(&mut fallback, "EN_en.default.toml");
        let ghost f = fallback@;
        assert(f =~= folder@ + seq!['/'] + "EN_en.default.toml"@);
        v.push(fallback);
        assert(views(v@) =~= seq![c, f]);
    }
    v
}

/// The paths joined with `, `, in order.
pub open spec fn joined(paths: Seq<Seq<char>>) -> Seq<char>
    decreases paths.len(),
{
    if paths.len() == 0 {
        Seq::empty()
    } else if paths.len() == 1 {
        paths[0]
    } else {
        joined(paths.drop_last()) + ", "@ + paths.last()
    }
}

/// The paths joined with `, `.
pub fn join_paths(paths: &Vec<String>) -> (r: String)
    ensures
        r@ == joined(views(paths@)),
{
    let mut out = String::new();
    let mut i: usize = 0;
    while i < paths.len()
        invariant
            i <= paths.len(),
            out@ == joined(views(paths@).subrange(0, i as int)),
        decreases paths.len() - i,
    {
        let ghost pre = views(paths@).subrange(0, i + 1);
        assert(pre.drop_last() =~= views(paths@).subrange(0, i as int));
        if i > 0 {
            push_str(&mut out, ", ");
        } else {
            assert(out@ =~= Seq::<char>::empty());
        }
        push_str(&mut out, paths[i].as_str());
        i = i + 1;
    }
    assert(views(paths@).subrange(0, i as int) =~= views(paths@));
    out
}

/// Error text when no language file could be fetched.
pub open spec fn spec_no_language_error(name: Seq<char>, candidates: Seq<Seq<char>>) -> Seq<char> {
    "aucun fichier de langue pour "@ + name + " (cherche: "@ + joined(candidates) + ")"@
}

/// Where the copy of the language file stands.
pub enum LanguageCopyStep {
    /// The candidate at this index is to be tried.
    Try(usize),
    /// The request for the candidate at `index` answered, with a success
    /// status or not.
    Fetched { index: usize, success: bool },
}

/// What to do next for the language file.
pub enum LanguageCopyAction {
    /// Request `url`, the raw file of the candidate at `index`; answer
    /// `Fetched`.
    Fetch { index: usize, url: String },
    /// Save what was fetched for the candidate at `index` in the `lang`
    /// folder of the data directory, under the candidate's file name.
    Save { index: usize },
    /// None of the candidates exists: the error text.
    Fail(String),
}

/// The next candidate from `i` on, or the error when there is none left.
pub open spec fn try_candidate(
    name: Seq<char>,
    branch: Seq<char>,
    candidates: Seq<Seq<char>>,
    i: int,
    a: LanguageCopyAction,
) -> bool {
    if 0 <= i < candidates.len() {
        a matches LanguageCopyAction::Fetch { index, url } && index == i && url@ == spec_raw_url(
            name,
            branch,
            candidates[i],
        )
    } else {
        a matches LanguageCopyAction::Fail(m) && m@ == spec_no_language_error(name, candidates)
    }
}

/// The decisions of `language_copy_step`: the first candidate that exists
/// is saved, in the order of the candidates.
pub open spec fn spec_language_copy_step(
    name: Seq<char>,
    branch: Seq<char>,
    candidates: Seq<Seq<char>>,
    step: LanguageCopyStep,
    a: LanguageCopyAction,
) -> bool {
    match step {
        LanguageCopyStep::Try(i) => try_candidate(name, branch, candidates, i as int, a),
        LanguageCopyStep::Fetched { index, success } => if success && index < candidates.len() {
            a == LanguageCopyAction::Save { index }
        } else if index < candidates.len() {
            try_candidate(name, branch, candidates, index + 1, a)
        } else {
            try_candidate(name, branch, candidates, candidates.len() as int, a)
        },
    }
}

fn try_candidate_exec(name: &str, branch: &str, candidates: &Vec<String>, i: usize) -> (a: LanguageCopyAction)
    ensures
        try_candidate(name@, branch@, views(candidates@), i as int, a),
{
    if i < candidates.len() {
        LanguageCopyAction::Fetch { index: i, url: raw_url(name, branch, candidates[i].as_str()) }
    } else {
        let mut m = string_of("aucun fichier de langue pour ");
        push_str(&mut m, name);
        push_str(&mut m, " (cherche: ");
        let j = join_paths(candidates);
        push_str(&mut m, j.as_str());
        push_str(&mut m, ")");
        LanguageCopyAction::Fail(m)
    }
}

/// One step of copying the language file: the candidates are tried in
/// order and the first one the server has is saved.
pub fn language_copy_step(
    name: &str,
    branch: &str,
    candidates: &Vec<String>,
    step: LanguageCopyStep,
) -> (a: LanguageCopyAction)
    ensures
        spec_language_copy_step(name@, branch@, views(candidates@), step, a),
{
    match step {
        LanguageCopyStep::Try(i) => try_candidate_exec(name, branch, candidates, i),
        LanguageCopyStep::Fetched { index, success } => {
            if success && index < candidates.len() {
                LanguageCopyAction::Save { index }
            } else if index < candidates.len() {
                try_candidate_exec(name, branch, candidates, index + 1)
            } else {
                try_candidate_exec(name, branch, candidates, candidates.len())
            }
        },
    }
}

// ───────────────────────────── shortcuts and certificates ─────────────────────────────

/// The Start menu folder that holds the suite's shortcuts.
pub const START_MENU_FOLDER: &'static str = "Rusty Suite";

/// `<app>.lnk`, the name of a program's shortcuts.
pub fn shortcut_file_name(app_name: &str) -> (r: String)
    ensures
        r@ == app_name@ + ".lnk"@,
{
    concat2(app_name, ".lnk")
}

/// `<app>.crt`, the name under which a program's certificate is downloaded.
pub fn certificate_file_name(app_name: &str) -> (r: String)
    ensures
        r@ == app_name@ + ".crt"@,
{
    concat2(app_name, ".crt")
}

/// The PowerShell command that creates a shortcut `lnk` to `target`.
pub open spec fn spec_shortcut_script(lnk: Seq<char>, target: Seq<char>) -> Seq<char> {
    "$ws = New-Object -ComObject WScript.Shell; $sc = $ws.CreateShortcut('"@ + lnk
        + "'); $sc.TargetPath = '"@ + target + "'; $sc.Save()"@
}

/// The PowerShell command that creates a shortcut.
pub fn shortcut_script(lnk: &str, target: &str) -> (r: String)
    ensures
        r@ == spec_shortcut_script(lnk@, target@),
{
    let mut r = string_of("$ws = New-Object -ComObject WScript.Shell; $sc = $ws.CreateShortcut('");
    push_str(&mut r, lnk);
    push_str(&mut r, "'); $sc.TargetPath = '");
    push_str(&mut r, target);
    push_str(&mut r, "'; $sc.Save()");
    r
}


/// A duration text reads back as the duration: under a minute it is the
/// seconds; under an hour the minutes and seconds that make up exactly the
/// duration; beyond, the hours and minutes it holds, to the minute below.
pub proof fn law_format_eta_reads_back(secs: nat)
    ensures
        secs < 60 ==> spec_format_eta(secs) == decimal(secs) + seq!['s'],
        60 <= secs < 3600 ==> exists|m: nat, s: nat|
            #![trigger decimal(m), decimal2(s)]
            60 * m + s == secs && s < 60 && spec_format_eta(secs) == decimal(m) + seq![
                'm',
                ' ',
            ] + decimal2(s) + seq!['s'],
        3600 <= secs ==> exists|h: nat, m: nat|
            #![trigger decimal(h), decimal2(m)]
            3600 * h + 60 * m <= secs < 3600 * h + 60 * m + 60 && m < 60
                && spec_format_eta(secs) == decimal(h) + seq!['h', ' '] + decimal2(m) + seq!['m'],
{
    if 60 <= secs < 3600 {
        let m = secs / 60;
        let s = secs % 60;
        assert(60 * m + s == secs);
        assert(spec_format_eta(secs) == decimal(m) + seq!['m', ' '] + decimal2(s) + seq!['s']);
    }
    if 3600 <= secs {
        let h = secs / 3600;
        let m = (secs % 3600) / 60;
        assert(3600 * h + 60 * m <= secs < 3600 * h + 60 * m + 60) by (nonlinear_arith)
            requires
                h == secs / 3600,
                m == (secs % 3600) / 60,
        {
        }
        assert(m < 60) by (nonlinear_arith)
            requires
                m == (secs % 3600) / 60,
        {
        }
        assert(spec_format_eta(secs) == decimal(h) + seq!['h', ' '] + decimal2(m) + seq!['m']);
    }
}


/// A download passes the size check exactly when the release announced no
/// size (0) or the download has the announced size.
pub proof fn law_size_check(expected: u64, actual: nat)
    ensures
        size_matches(expected, actual) <==> (expected == 0 || actual == expected),
{
}

/// A download passes the digest check exactly when its checksum file
/// announces nothing or announces the download's SHA-256 digest in
/// lowercase hexadecimal.
pub proof fn law_digest_check(data: Seq<u8>, checksum_file: Seq<u8>)
    ensures
        digest_matches(data, checksum_file) <==> (announced_digest(checksum_file).len() == 0
            || announced_digest(checksum_file) == hex_lower(sha256_of(data))),
        digests_agree(announced_digest(checksum_file), hex_lower(sha256_of(data)))
            <==> digest_matches(data, checksum_file),
{
}

/// The language file chosen is tried first, in the program's language
/// folder; the English default follows it unless the chosen file is itself
/// a default one.
pub proof fn law_lang_candidates(folder: Seq<char>, language: Seq<char>)
    ensures
        spec_lang_candidates(folder, language).len() >= 1,
        spec_lang_candidates(folder, language)[0] == folder + seq!['/'] + language,
        spec_lang_candidates(folder, language).len() == (if has_infix(language, ".default."@) {
            1int
        } else {
            2int
        }),
        spec_lang_candidates(folder, language).len() == 2 ==> spec_lang_candidates(folder, language)[1]
            == folder + seq!['/'] + "EN_en.default.toml"@,
{
}

} // verus!
