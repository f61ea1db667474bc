use suite_install::assets::{find_checksum_asset, pick_windows_asset, pick_windows_asset_index, score_name, is_checksum};
use suite_install::github::{
    certificate_url, check_reply, connectivity_verdict, fetch_language_files, fetch_latest_release,
    fetch_org_repos, filter_repos, first_non_draft, language_files, raw_url, GithubContent,
    GithubRelease, GithubRepo, HttpReply, LangFolder, LanguageAction, LanguageStep, ReleaseAction,
    ReleaseAsset, ReleaseStep, RepoListAction, RepoListStep,
};

fn repo(name: &str) -> GithubRepo {
    GithubRepo {
        name: name.to_string(),
        description: None,
        html_url: format!("https://github.com/rusty-suite/{name}"),
        default_branch: "main".to_string(),
    }
}

fn asset(name: &str, size: u64) -> ReleaseAsset {
    ReleaseAsset { name: name.to_string(), browser_download_url: format!("https://dl/{name}"), size }
}

fn release(tag: &str, draft: bool) -> GithubRelease {
    GithubRelease { tag_name: tag.to_string(), assets: vec![], draft, prerelease: false }
}

fn reply(status: u16, text: &str, body: &str) -> HttpReply {
    HttpReply { status, status_text: text.to_string(), body: Ok(body.to_string()) }
}

#[test]
fn urls_of_raw_files_and_certificates() {
    assert_eq!(
        raw_url("notes", "main", "lang/CH_fr.toml"),
        "https://raw.githubusercontent.com/rusty-suite/notes/main/lang/CH_fr.toml"
    );
    assert_eq!(
        certificate_url("notes", "dev"),
        "https://raw.githubusercontent.com/rusty-suite/notes/dev/certificat_public/notes.crt"
    );
}

#[test]
fn installer_and_meta_repositories_are_not_listed() {
    let repos = vec![repo("suite_install"), repo("notes"), repo(".github"), repo("rusty-suite"), repo("calc")];
    let kept: Vec<String> = filter_repos(repos).into_iter().map(|r| r.name).collect();
    assert_eq!(kept, vec!["notes", "calc"]);
}

#[test]
fn repository_listing_falls_back_to_the_user_account() {
    match fetch_org_repos(RepoListStep::Begin) {
        RepoListAction::GetOrg(u) => assert_eq!(u, "https://api.github.com/orgs/rusty-suite/repos?per_page=100&type=public"),
        _ => panic!("expected the organisation listing"),
    }
    match fetch_org_repos(RepoListStep::OrgReply(reply(404, "404 Not Found", ""))) {
        RepoListAction::GetUser(u) => assert_eq!(u, "https://api.github.com/users/rusty-suite/repos?per_page=100&type=public"),
        _ => panic!("expected the user listing"),
    }
    match fetch_org_repos(RepoListStep::UserReply(reply(200, "200 OK", "[]"))) {
        RepoListAction::Decode { url, body } => {
            assert_eq!(url, "https://api.github.com/users/rusty-suite/repos?per_page=100&type=public");
            assert_eq!(body, "[]");
        }
        _ => panic!("expected a decode"),
    }
    match fetch_org_repos(RepoListStep::Decoded { url: "u".to_string(), body: "b".to_string(), result: Ok(vec![repo("notes"), repo(".x")]) }) {
        RepoListAction::Done(Ok(v)) => assert_eq!(v.len(), 1),
        _ => panic!("expected the repositories"),
    }
}

#[test]
fn errors_of_the_api_are_reported() {
    match fetch_org_repos(RepoListStep::OrgReply(reply(500, "500 Internal Server Error", "  oops \n"))) {
        RepoListAction::Done(Err(m)) => assert_eq!(
            m,
            "GitHub a retourne 500 Internal Server Error pour https://api.github.com/orgs/rusty-suite/repos?per_page=100&type=public: oops"
        ),
        _ => panic!("expected an error"),
    }
    let r = check_reply("http://x", HttpReply { status: 200, status_text: "200 OK".to_string(), body: Err("reset".to_string()) });
    assert_eq!(r, Err("lecture de la reponse GitHub impossible (200 OK) pour http://x: reset".to_string()));
    match fetch_org_repos(RepoListStep::Decoded { url: "http://x".to_string(), body: "<html>".to_string(), result: Err("expected value".to_string()) }) {
        RepoListAction::Done(Err(m)) => assert_eq!(m, "decodage JSON impossible pour http://x: expected value. Extrait: <html>"),
        _ => panic!("expected an error"),
    }
    match fetch_org_repos(RepoListStep::Failed("dns".to_string())) {
        RepoListAction::Done(Err(m)) => assert_eq!(m, "dns"),
        _ => panic!("expected an error"),
    }
}

#[test]
fn latest_release_then_first_published_one() {
    match fetch_latest_release("notes", ReleaseStep::Begin) {
        ReleaseAction::GetLatest(u) => assert_eq!(u, "https://api.github.com/repos/rusty-suite/notes/releases/latest"),
        _ => panic!(),
    }
    match fetch_latest_release("notes", ReleaseStep::LatestReply(reply(404, "404 Not Found", ""))) {
        ReleaseAction::GetList(u) => assert_eq!(u, "https://api.github.com/repos/rusty-suite/notes/releases?per_page=20"),
        _ => panic!(),
    }
    match fetch_latest_release("notes", ReleaseStep::ListReply(reply(404, "404 Not Found", ""))) {
        ReleaseAction::Done(Ok(None)) => {}
        _ => panic!(),
    }
    let rels = vec![release("v3", true), release("v2", false), release("v1", false)];
    match fetch_latest_release("notes", ReleaseStep::ListDecoded { url: "u".to_string(), body: "b".to_string(), result: Ok(rels) }) {
        ReleaseAction::Done(Ok(Some(r))) => assert_eq!(r.tag_name, "v2"),
        _ => panic!(),
    }
    assert!(first_non_draft(vec![release("v1", true)]).is_none());
    match fetch_latest_release("notes", ReleaseStep::LatestReply(reply(200, "200 OK", "{}"))) {
        ReleaseAction::DecodeLatest { body, .. } => assert_eq!(body, "{}"),
        _ => panic!(),
    }
}

#[test]
fn language_files_are_sorted_toml_files() {
    let cs = vec![
        GithubContent { name: "IT_it.toml".into(), kind: "file".into() },
        GithubContent { name: "README.md".into(), kind: "file".into() },
        GithubContent { name: "CH_fr.toml".into(), kind: "file".into() },
        GithubContent { name: "old.toml".into(), kind: "dir".into() },
        GithubContent { name: "EN_en.default.toml".into(), kind: "file".into() },
    ];
    assert_eq!(language_files(cs), vec!["CH_fr.toml", "EN_en.default.toml", "IT_it.toml"]);
}

#[test]
fn language_folders_are_tried_in_order() {
    match fetch_language_files("notes", "main", LanguageStep::Begin) {
        LanguageAction::Get { folder, url } => {
            assert_eq!(folder, LangFolder::Langue);
            assert_eq!(url, "https://api.github.com/repos/rusty-suite/notes/contents/langue?ref=main");
        }
        _ => panic!(),
    }
    match fetch_language_files("notes", "main", LanguageStep::Reply { folder: LangFolder::Langue, reply: reply(404, "404 Not Found", "") }) {
        LanguageAction::Get { folder, url } => {
            assert_eq!(folder, LangFolder::Lang);
            assert_eq!(url, "https://api.github.com/repos/rusty-suite/notes/contents/lang?ref=main");
        }
        _ => panic!(),
    }
    match fetch_language_files("notes", "main", LanguageStep::Reply { folder: LangFolder::Lang, reply: reply(404, "404 Not Found", "") }) {
        LanguageAction::Done(Ok((v, f))) => {
            assert!(v.is_empty());
            assert_eq!(f, "langue");
        }
        _ => panic!(),
    }
    let cs = vec![GithubContent { name: "b.toml".into(), kind: "file".into() }, GithubContent { name: "a.toml".into(), kind: "file".into() }];
    match fetch_language_files("notes", "main", LanguageStep::Decoded { folder: LangFolder::Lang, url: "u".into(), body: "b".into(), result: Ok(cs) }) {
        LanguageAction::Done(Ok((v, f))) => {
            assert_eq!(v, vec!["a.toml", "b.toml"]);
            assert_eq!(f, "lang");
        }
        _ => panic!(),
    }
}

#[test]
fn connectivity_accepts_success_and_404() {
    assert_eq!(connectivity_verdict(200, "200 OK", 42), Ok(42));
    assert_eq!(connectivity_verdict(404, "404 Not Found", 7), Ok(7));
    assert_eq!(connectivity_verdict(503, "503 Service Unavailable", 7), Err("HTTP 503 Service Unavailable".to_string()));
}

#[test]
fn asset_scores() {
    assert_eq!(score_name("app.exe"), 4);
    assert_eq!(score_name("app-windows-x86_64.zip"), 16);
    assert_eq!(score_name("app-linux-x86_64.tar.gz"), -12);
    assert_eq!(score_name("app-macos.dmg"), -20);
    assert!(is_checksum("app.exe.sha256"));
    assert!(is_checksum("app.md5"));
    assert!(!is_checksum("app.exe"));
}

#[test]
fn the_windows_binary_is_picked() {
    let assets = vec![
        asset("tool-linux-x86_64.tar.gz", 10),
        asset("tool-windows-x86_64.exe.sha256", 64),
        asset("tool-windows-x86_64.exe", 100),
        asset("tool-macos.zip", 20),
    ];
    assert_eq!(pick_windows_asset(&assets).map(|a| a.name.as_str()), Some("tool-windows-x86_64.exe"));
    assert_eq!(find_checksum_asset(&assets, "tool-windows-x86_64.exe"), Some(1));
    assert_eq!(find_checksum_asset(&assets, "tool-macos.zip"), None);
}

#[test]
fn upper_case_names_are_scored_lower_cased() {
    let assets = vec![asset("TOOL.ZIP", 1), asset("TOOL-WIN64.EXE", 2)];
    assert_eq!(pick_windows_asset_index(&assets), Some(1));
}

#[test]
fn equal_scores_pick_the_last_one() {
    let assets = vec![asset("a.exe", 1), asset("b.exe", 2), asset("c.msi", 3)];
    assert_eq!(pick_windows_asset_index(&assets), Some(1));
}

#[test]
fn nothing_is_picked_from_checksums_and_other_platforms() {
    let assets = vec![asset("a.sha256", 1), asset("b-darwin", 2), asset("c.exe.md5", 3)];
    assert_eq!(pick_windows_asset_index(&assets), None);
    assert!(pick_windows_asset(&[]).is_none());
}
