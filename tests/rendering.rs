use snowpity_tg::order::compare_str;
use snowpity_tg::markdown::join_strings;
use snowpity_tg::media::{Artist, MediaHostingSpecific, MediaMeta, Response};
use snowpity_tg::repo::CdnFileKind;
use snowpity_tg::text::{decimal_string, signed_decimal_string};
use snowpity_tg::tg::{chat_debug_id_imp, no_escape, Chat, MessageId, TextEscape, UpdateKind, User};

fn meta(artists: Vec<Artist>, ratings: &[&str]) -> MediaMeta {
    MediaMeta::new(
        artists,
        "https://derpibooru.org/images/42".to_owned(),
        MediaHostingSpecific::Derpibooru { ratings: ratings.iter().map(|r| r.to_string()).collect() },
    )
}

#[test]
fn caption_without_artists_or_unsafe_ratings() {
    let m = meta(vec![], &["safe"]);
    assert_eq!(m.caption(), "*[Original \\(Derpibooru\\)](https://derpibooru.org/images/42)*");
    let m = meta(vec![], &[]);
    assert_eq!(m.caption(), "*[Original \\(Derpibooru\\)](https://derpibooru.org/images/42)*");
}

#[test]
fn caption_with_artists_and_ratings() {
    let artists = vec![
        Artist { name: "a_b".to_owned(), link: "https://x.org/a".to_owned() },
        Artist { name: "c".to_owned(), link: "https://x.org/(c)".to_owned() },
    ];
    let m = meta(artists, &["explicit", "grimdark"]);
    assert_eq!(
        m.caption(),
        "*[Original \\(Derpibooru\\)](https://derpibooru.org/images/42) by [a\\_b](https://x.org/a), \
         [c](https://x.org/(c\\)) \\(explicit, grimdark\\)*"
    );
}

#[test]
fn caption_keeps_safe_among_other_ratings() {
    let m = meta(vec![], &["safe", "suggestive"]);
    assert_eq!(
        m.caption(),
        "*[Original \\(Derpibooru\\)](https://derpibooru.org/images/42) \\(safe, suggestive\\)*"
    );
}

#[test]
fn markdown_helpers() {
    let parts = vec!["a".to_owned(), "b".to_owned(), "c".to_owned()];
    assert_eq!(join_strings(&parts, "-"), "a-b-c");
    let m = MediaMeta::new(
        vec![Artist { name: "a.b!c_d".to_owned(), link: "http://x/)`".to_owned() }],
        "l".to_owned(),
        MediaHostingSpecific::Derpibooru { ratings: parts },
    );
    assert_eq!(m.caption(), "*[Original \\(Derpibooru\\)](l) by [a\\.b\\!c\\_d](http://x/\\)\\`) \\(a, b, c\\)*");
    assert_eq!(join_strings(&vec![], "-"), "");
}

#[test]
fn response_carries_handle_and_meta() {
    let r = Response { cdn_file_id: "cdn-xyz".to_owned(), cdn_file_kind: CdnFileKind::Photo, meta: meta(vec![], &[]) };
    assert_eq!(r.cdn_file_id, "cdn-xyz");
    assert_eq!(r.meta.hosting_specific().hosting_name(), "Derpibooru");
    assert_eq!(r.meta.link(), "https://derpibooru.org/images/42");
}

#[test]
fn decimal_rendering() {
    assert_eq!(decimal_string(0), "0");
    assert_eq!(decimal_string(1234567890), "1234567890");
    assert_eq!(decimal_string(u64::MAX), "18446744073709551615");
    assert_eq!(signed_decimal_string(-1001234), "-1001234");
    assert_eq!(signed_decimal_string(i64::MIN), "-9223372036854775808");
}

fn user(username: Option<&str>, last: Option<&str>) -> User {
    User {
        id: 5,
        first_name: "Ann".to_owned(),
        last_name: last.map(str::to_owned),
        username: username.map(str::to_owned),
    }
}

#[test]
fn user_names() {
    assert_eq!(user(Some("ann_1"), None).username(), "ann_1");
    assert_eq!(user(None, Some("Lee")).username(), "Ann Lee");
    assert_eq!(user(None, None).full_name(), "Ann");
    assert_eq!(user(None, Some("Lee")).debug_id(), "Ann Lee (5)");
    assert_eq!(user(Some("ann_1"), None).md_link(), "[ann\\_1](tg://user/?id=5)");
}

#[test]
fn chat_names() {
    let chat = Chat { id: -100123, title: Some("Pony.chat".to_owned()), username: Some("pc".to_owned()), invite_link: None };
    assert_eq!(chat.debug_id(), "Pony.chat (pc, -100123)");
    assert_eq!(chat.debug_id_markdown_escaped(), "Pony\\.chat \\(pc, \\-100123\\)");
    let chat = Chat { id: 7, title: None, username: None, invite_link: Some("https://t.me/+a)b".to_owned()) };
    assert_eq!(chat.debug_id(), "[{{unknown_chat_title}}](https://t.me/+a\\)b) (7)");
    assert_eq!(chat_debug_id_imp(&chat, TextEscape::Plain), chat.debug_id());
    assert_eq!(no_escape("a_b"), "a_b");
}

#[test]
fn small_ids_and_kinds() {
    assert_eq!(MessageId(17).to_tracing(), 17);
    assert_eq!(UpdateKind::ChatJoinRequest.discriminator(), "ChatJoinRequest");
    assert_eq!(UpdateKind::Message.discriminator(), "Message");
}

#[test]
fn metadata_orders_and_dedups_artists_and_ratings() {
    let artists = vec![
        Artist { name: "zed".to_owned(), link: "https://x.org/z".to_owned() },
        Artist { name: "amy".to_owned(), link: "https://x.org/b".to_owned() },
        Artist { name: "amy".to_owned(), link: "https://x.org/a".to_owned() },
        Artist { name: "zed".to_owned(), link: "https://x.org/z".to_owned() },
    ];
    let hosting = MediaHostingSpecific::Derpibooru {
        ratings: vec!["suggestive".to_owned(), "explicit".to_owned(), "suggestive".to_owned()],
    };
    let m = MediaMeta::new(artists, "https://derpibooru.org/images/1".to_owned(), hosting);
    let names: Vec<(&str, &str)> = m.artists().iter().map(|a| (a.name.as_str(), a.link.as_str())).collect();
    assert_eq!(names, vec![("amy", "https://x.org/a"), ("amy", "https://x.org/b"), ("zed", "https://x.org/z")]);
    let MediaHostingSpecific::Derpibooru { ratings } = m.hosting_specific();
    assert_eq!(ratings, &vec!["explicit".to_owned(), "suggestive".to_owned()]);
    assert_eq!(
        m.caption(),
        "*[Original \\(Derpibooru\\)](https://derpibooru.org/images/1) by [amy](https://x.org/a), \
         [amy](https://x.org/b), [zed](https://x.org/z) \\(explicit, suggestive\\)*"
    );
}

#[test]
fn string_order_is_by_code_point() {
    assert_eq!(compare_str("a", "b"), -1);
    assert_eq!(compare_str("b", "a"), 1);
    assert_eq!(compare_str("ab", "ab"), 0);
    assert_eq!(compare_str("a", "ab"), -1);
    assert_eq!(compare_str("Z", "a"), -1);
    assert_eq!(compare_str("é", "z"), 1);
}

#[test]
fn caption_names_artists_by_ascending_name() {
    let artists = vec![
        Artist { name: "b".to_owned(), link: "https://x.org/b".to_owned() },
        Artist { name: "a".to_owned(), link: "https://x.org/a".to_owned() },
    ];
    let m = meta(artists, &["explicit"]);
    assert_eq!(
        m.caption(),
        "*[Original \\(Derpibooru\\)](https://derpibooru.org/images/42) by [a](https://x.org/a), \
         [b](https://x.org/b) \\(explicit\\)*"
    );
}
