use snowpity_tg::maintainer::{is_maintainer, unverified_report, version_table};
use snowpity_tg::markdown::error_reply;
use snowpity_tg::tg::User;

#[test]
fn version_table_aligns_and_escapes() {
    let meta = vec![
        ("BUILD_SEMVER".to_owned(), "1.2.3".to_owned()),
        ("GIT_SHA".to_owned(), "abc".to_owned()),
    ];
    assert_eq!(
        version_table(&meta),
        "```\nbuild\\_semver \\= 1\\.2\\.3\ngit\\_sha      \\= abc\n```"
    );
}

#[test]
fn maintainer_is_recognized_by_id() {
    assert!(is_maintainer(Some(7), 7));
    assert!(!is_maintainer(Some(8), 7));
    assert!(!is_maintainer(None, 7));
}

#[test]
fn unverified_users_are_listed_with_their_chats() {
    let ann = User { id: 5, first_name: "Ann".to_owned(), last_name: None, username: None };
    let bob = User { id: 6, first_name: "Bob".to_owned(), last_name: None, username: Some("bobby".to_owned()) };
    let entries = vec![(-1, ann), (-2, bob)];
    let chats = vec![(-2, "Two".to_owned()), (-1, "One".to_owned())];
    assert_eq!(unverified_report(&entries, &chats), "Ann (5) 👉 One\nbobby (6) 👉 Two");
    assert_eq!(unverified_report(&vec![], &chats), "");
}

#[test]
fn error_reply_is_a_code_block() {
    assert_eq!(error_reply("bad `x` \\ y"), "```\nbad \\`x\\` \\\\ y\n```");
}
