use dpx::auth::{load_token, DropboxAuthentication, TokenStoreOp};
use dpx::command::{login_prompt, parse_command, uploaded_message, view_link_message, Command};
use dpx::file::DropboxFile;
use dpx::links::{
    DropboxLink, DropboxLinkAudienceOption, DropboxLinkPermissions, DropboxLinkResult, DropboxTag,
};
use dpx::profile::{DropboxName, DropboxProfile};
use dpx::resolver::{LinkDecision, RevokeStep};
use dpx::text::{remove_char, remove_zip, same_text};

fn s(t: &str) -> String {
    String::from(t)
}

fn option(tag: &str, allowed: bool) -> DropboxLinkAudienceOption {
    DropboxLinkAudienceOption::new(allowed, DropboxTag::new(s(tag)))
}

fn link(url: &str, options: Vec<DropboxLinkAudienceOption>) -> DropboxLink {
    DropboxLink::new(DropboxLinkPermissions::new(true, options), s(url))
}

fn public_link(url: &str) -> DropboxLink {
    link(url, vec![option("team", true), option("public", true)])
}

fn team_link(url: &str) -> DropboxLink {
    link(url, vec![option("team", true), option("public", false)])
}

#[test]
fn resolve_adds_leading_slash() {
    assert_eq!(DropboxFile::resolve_dropbox_path(&s("foo/bar")), "/foo/bar");
}

#[test]
fn resolve_keeps_rooted_path() {
    assert_eq!(DropboxFile::resolve_dropbox_path(&s("/foo/bar")), "/foo/bar");
}

#[test]
fn resolve_is_idempotent() {
    let once = DropboxFile::resolve_dropbox_path(&s("a/b.txt"));
    let twice = DropboxFile::resolve_dropbox_path(&once);
    assert_eq!(once, twice);
    assert_eq!(DropboxFile::resolve_dropbox_path(&s("")), "/");
}

#[test]
fn download_report_pdf_keeps_bytes() {
    let body = vec![37u8, 80, 68, 70, 0, 255];
    let f = DropboxFile::download(&s("report.pdf"), body.clone()).unwrap();
    assert_eq!(f.filename(), "report.pdf");
    assert_eq!(f.path(), "report.pdf");
    assert_eq!(f.data_ref(), &body[..]);
    assert_eq!(f.data(), body);
}

#[test]
fn download_names_file_after_last_segment() {
    let f = DropboxFile::download(&s("/docs/2024/report.pdf"), vec![1, 2]).unwrap();
    assert_eq!(f.filename(), "report.pdf");
    assert_eq!(f.path(), "/docs/2024/report.pdf");
}

#[test]
fn download_without_file_name_gives_none() {
    assert!(DropboxFile::download(&s("docs/.."), vec![1]).is_none());
    assert!(DropboxFile::download(&s("/"), vec![1]).is_none());
}

#[test]
fn download_zip_appends_extension() {
    let f = DropboxFile::download_zip(&s("/Photos"), vec![9]).unwrap();
    assert_eq!(f.filename(), "Photos.zip");
    assert_eq!(f.archive_dir(), "Photos");
}

#[test]
fn archive_dir_drops_every_zip() {
    let f = DropboxFile::download_zip(&s("old.zip"), vec![]).unwrap();
    assert_eq!(f.filename(), "old.zip.zip");
    assert_eq!(f.archive_dir(), "old");
    assert_eq!(remove_zip("a.zipb.zi"), "ab.zi");
}

#[test]
fn upload_dot_relative_path() {
    let f = DropboxFile::local(&s("./local.txt"), vec![104, 105]).unwrap();
    let p = f.upload_path();
    assert_eq!(p, "/local.txt");
    assert_eq!(uploaded_message(&p), "Uploaded to /local.txt");
}

#[test]
fn upload_absolute_path_uses_file_name() {
    let f = DropboxFile::local(&s("/home/me/notes.txt"), vec![]).unwrap();
    assert_eq!(f.upload_path(), "/notes.txt");
}

#[test]
fn upload_relative_path_kept() {
    let f = DropboxFile::local(&s("dir/a.txt"), vec![]).unwrap();
    assert_eq!(f.upload_path(), "/dir/a.txt");
}

#[test]
fn link_is_public_only_when_public_option_allowed() {
    assert!(public_link("u").is_public());
    assert!(!team_link("u").is_public());
    assert!(!link("u", vec![]).is_public());
    assert!(!link("u", vec![option("public", false), option("public", true)]).is_public());
}

#[test]
fn public_link_none_for_empty_listing() {
    let r = DropboxLinkResult { links: vec![] };
    assert_eq!(r.public_link(), None);
}

#[test]
fn public_link_none_without_public_entry() {
    let r = DropboxLinkResult { links: vec![team_link("a"), link("b", vec![option("team", true)])] };
    assert_eq!(r.public_link(), None);
}

#[test]
fn public_link_takes_first_public() {
    let r = DropboxLinkResult {
        links: vec![team_link("a"), public_link("b"), public_link("c")],
    };
    assert_eq!(r.public_link(), Some(s("b")));
}

#[test]
fn view_link_failed_listing() {
    let d = DropboxFile::public_view_link(&s("/notes.txt"), None);
    assert!(matches!(d, LinkDecision::Failed));
}

#[test]
fn view_link_creates_then_finds_same_url() {
    let path = DropboxFile::resolve_dropbox_path(&s("notes.txt"));
    let first = DropboxFile::public_view_link(&path, Some(DropboxLinkResult { links: vec![] }));
    match first {
        LinkDecision::Create(p) => assert_eq!(p, "/notes.txt"),
        _ => panic!("expected a creation"),
    }
    let created = "https://share.example/s/notes";
    let line = view_link_message(created);
    assert!(line.contains(created));
    let listed = DropboxLinkResult { links: vec![public_link(created)] };
    let second = DropboxFile::public_view_link(&path, Some(listed));
    match second {
        LinkDecision::Found(u) => {
            assert_eq!(u, created);
            assert_eq!(view_link_message(&u), line);
        }
        _ => panic!("expected the existing link"),
    }
}

#[test]
fn view_link_message_text() {
    assert_eq!(view_link_message("https://x"), "View-only link: https://x");
}

#[test]
fn revoke_nothing_when_no_links() {
    let r = DropboxFile::remove_all_links(Some(DropboxLinkResult { links: vec![] }));
    assert!(matches!(r.next(), RevokeStep::Finished(true)));
}

#[test]
fn revoke_fails_when_listing_failed() {
    let r = DropboxFile::remove_all_links(None);
    assert!(matches!(r.next(), RevokeStep::Finished(false)));
}

#[test]
fn revoke_in_order_and_stop_at_failure() {
    let listed = DropboxLinkResult {
        links: vec![public_link("u1"), team_link("u2"), public_link("u3")],
    };
    let mut r = DropboxFile::remove_all_links(Some(listed));
    match r.next() {
        RevokeStep::Revoke(u) => assert_eq!(u, "u1"),
        _ => panic!("expected a revocation"),
    }
    r.record(true);
    match r.next() {
        RevokeStep::Revoke(u) => assert_eq!(u, "u2"),
        _ => panic!("expected a revocation"),
    }
    r.record(false);
    assert!(matches!(r.next(), RevokeStep::Finished(false)));
}

#[test]
fn revoke_all_succeeds() {
    let mut r = DropboxFile::remove_all_links(Some(DropboxLinkResult { links: vec![team_link("x")] }));
    assert!(matches!(r.next(), RevokeStep::Revoke(_)));
    r.record(true);
    assert!(matches!(r.next(), RevokeStep::Finished(true)));
}

#[test]
fn create_without_file_is_signed_out() {
    let a = DropboxAuthentication::create(None);
    assert!(!a.authorized());
    assert_eq!(a.key, "");
    assert_eq!(a.verification().len(), 128);
    assert!(a
        .verification()
        .iter()
        .all(|b| b.is_ascii_alphanumeric() || b"-._~".contains(b)));
}

#[test]
fn create_from_file_trims_newline() {
    let a = DropboxAuthentication::create(Some(s("sl.TOKEN\n")));
    assert!(a.authorized());
    assert_eq!(a.key, "sl.TOKEN");
    assert!(a.verification().is_empty());
}

#[test]
fn save_then_load_round_trip() {
    let mut a = DropboxAuthentication::create(None);
    let op = a.set_code(s("abc123"));
    assert!(a.authorized());
    assert_eq!(a.key, "abc123");
    let file = match op {
        TokenStoreOp::Save(t) => t,
        TokenStoreOp::Delete => panic!("expected a save"),
    };
    assert_eq!(load_token(Some(file.clone())), Some(s("abc123")));
    let b = DropboxAuthentication::create(Some(file));
    assert_eq!(b.key, "abc123");
}

#[test]
fn logout_then_load_is_none() {
    let mut a = DropboxAuthentication::create(Some(s("tok")));
    let op = a.logout();
    assert!(matches!(op, TokenStoreOp::Delete));
    assert!(!a.authorized());
    assert_eq!(a.key, "");
    assert_eq!(load_token(None), None);
    let mut b = DropboxAuthentication::create(None);
    assert!(matches!(b.logout(), TokenStoreOp::Delete));
    assert!(!b.authorized());
}

#[test]
fn try_recall_without_file_keeps_state() {
    let mut a = DropboxAuthentication::create(None);
    assert!(!a.try_recall(None));
    assert!(!a.authorized());
    assert!(a.try_recall(Some(s("k"))));
    assert_eq!(a.key, "k");
}

#[test]
fn auth_link_is_fixed() {
    let a = DropboxAuthentication::create(Some(s("t")));
    assert_eq!(
        a.get_auth_link(),
        "https://www.dropbox.com/oauth2/authorize?response_type=token&client_id=s3q3092azd1y0ne&redirect_uri=https://www.flareapplications.com/display"
    );
    assert!(login_prompt("X").starts_with("Open this URL and paste the code: X"));
}

#[test]
fn parse_no_verb_is_welcome() {
    assert!(matches!(parse_command(&vec![]), Command::Welcome));
}

#[test]
fn parse_verbs_with_paths() {
    match parse_command(&vec![s("dl"), s("report.pdf")]) {
        Command::Download(p) => assert_eq!(p, "report.pdf"),
        _ => panic!("expected a download"),
    }
    match parse_command(&vec![s("vl"), s("notes.txt")]) {
        Command::ViewLink(p) => assert_eq!(p, "notes.txt"),
        _ => panic!("expected a view link"),
    }
    match parse_command(&vec![s("up"), s("./local.txt")]) {
        Command::Upload(p) => assert_eq!(p, "./local.txt"),
        _ => panic!("expected an upload"),
    }
    assert!(matches!(parse_command(&vec![s("zip"), s("a")]), Command::Zip(_)));
    assert!(matches!(parse_command(&vec![s("private"), s("a")]), Command::Private(_)));
    assert!(matches!(parse_command(&vec![s("folder"), s("a")]), Command::Folder(_)));
    assert!(matches!(parse_command(&vec![s("logout")]), Command::Logout));
    assert!(matches!(parse_command(&vec![s("whoami")]), Command::Whoami));
}

#[test]
fn parse_missing_argument_hint() {
    match parse_command(&vec![s("dl")]) {
        Command::MissingArgument(m) => assert_eq!(m, "dl requires an argument (file path)."),
        _ => panic!("expected a hint"),
    }
    match parse_command(&vec![s("up")]) {
        Command::MissingArgument(m) => assert_eq!(m, "upload requires an argument (local file)."),
        _ => panic!("expected a hint"),
    }
}

#[test]
fn parse_unknown_verb() {
    match parse_command(&vec![s("fetch"), s("x")]) {
        Command::Unknown(m) => assert_eq!(m, "Unknown command fetch!\n"),
        _ => panic!("expected an unknown command"),
    }
}

#[test]
fn text_helpers() {
    assert_eq!(remove_char("ab\ncd\n", '\n'), "abcd");
    assert!(same_text("dl", "dl"));
    assert!(!same_text("dl", "dL"));
    assert!(!same_text("dl", "dlx"));
}

#[test]
fn profile_message() {
    let p = DropboxProfile {
        name: DropboxName {
            abbreviated_name: s("AL"),
            display_name: s("Ada Lovelace"),
            familiar_name: s("Ada"),
            given_name: s("Ada"),
            surname: s("Lovelace"),
        },
    };
    assert_eq!(p.signed_in_message(), "You're signed into Dropbox as Ada Lovelace");
}

#[test]
fn from_name_appends_suffix() {
    let f = DropboxFile::from_name(&s("/a/b"), s("b"), ".zip", vec![7]);
    assert_eq!(f.filename(), "b.zip");
    assert_eq!(f.path(), "/a/b");
    assert_eq!(f.data(), vec![7]);
}

#[test]
fn key_getter_matches_token() {
    let mut a = DropboxAuthentication::create(None);
    assert_eq!(a.key(), "");
    let _ = a.set_code(s("tok-1"));
    assert_eq!(a.key(), "tok-1");
}
