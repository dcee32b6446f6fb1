use snowpity_tg::platform::Platform;
use snowpity_tg::query::{parse_query, parse_trimmed, trim, white_space, BlobId, PostId, Request};

#[test]
fn parses_derpibooru_page_link() {
    let q = parse_query("https://derpibooru.org/images/42").unwrap();
    assert_eq!(q.request, Request { platform: Platform::Derpibooru, media: 42 });
    assert_eq!(q.origin, "derpibooru.org/images");
    assert!(q.mirror.is_none());
}

#[test]
fn parses_short_page_link() {
    let q = parse_query("derpibooru.org/7").unwrap();
    assert_eq!(q.request.media, 7);
    assert_eq!(q.origin, "derpibooru.org");
}

#[test]
fn mirror_host_is_recorded_and_url_is_canonical() {
    let q = parse_query("https://trixiebooru.org/42").unwrap();
    assert_eq!(q.request, Request { platform: Platform::Derpibooru, media: 42 });
    let m = q.mirror.unwrap();
    assert_eq!(m.canonical, "derpibooru.org");
    assert_eq!(m.typed, "trixiebooru.org");
    assert_eq!(q.request.platform.post_web_url(42), "https://derpibooru.org/images/42");
}

#[test]
fn parses_cdn_links() {
    let q = parse_query("https://derpicdn.net/img/2020/1/2/42/full.png").unwrap();
    assert_eq!(q.request, Request { platform: Platform::Derpibooru, media: 42 });
    assert_eq!(q.origin, "derpicdn.net/img");
    assert!(q.mirror.is_none());

    let q = parse_query("https://derpicdn.net/img/view/2020/1/2/43.png").unwrap();
    assert_eq!(q.request.media, 43);
    assert_eq!(q.origin, "derpicdn.net/img/view");

    let q = parse_query("derpicdn.net/img/download/2020/1/2/44__safe.png").unwrap();
    assert_eq!(q.request.media, 44);
    assert_eq!(q.origin, "derpicdn.net/img/download");
}

#[test]
fn parses_other_platforms() {
    let q = parse_query("https://ponerpics.org/images/5").unwrap();
    assert_eq!(q.request, Request { platform: Platform::Ponerpics, media: 5 });
    let q = parse_query("https://ponerpics.org/img/2021/3/4/6/large.png").unwrap();
    assert_eq!(q.request, Request { platform: Platform::Ponerpics, media: 6 });
    assert_eq!(q.origin, "ponerpics.org/img");
    let q = parse_query("furbooru.org/9").unwrap();
    assert_eq!(q.request.platform, Platform::Furbooru);
    let q = parse_query("manebooru.art/images/10").unwrap();
    assert_eq!(q.request.platform, Platform::Manebooru);
    let q = parse_query("ponybooru.org/11").unwrap();
    assert_eq!(q.request.platform, Platform::Ponybooru);
    let q = parse_query("twibooru.org/12").unwrap();
    assert_eq!(q.request.platform, Platform::Twibooru);
}

#[test]
fn rejects_unsupported_links() {
    assert!(parse_query("https://example.com/images/1").is_none());
    assert!(parse_query("derpibooru.org/images/abc").is_none());
    assert!(parse_query("").is_none());
    assert!(parse_query("Derpibooru.org/1").is_none());
}

#[test]
fn rejects_ids_that_overflow() {
    assert!(parse_query("derpibooru.org/99999999999999999999").is_none());
    let q = parse_query("derpibooru.org/18446744073709551615").unwrap();
    assert_eq!(q.request.media, u64::MAX);
}

#[test]
fn finds_link_inside_text_and_trims() {
    let q = parse_query("  see www.derpibooru.org/images/100?q=x  ").unwrap();
    assert_eq!(q.request.media, 100);
    assert!(parse_trimmed(" derpibooru.org/1").is_some());
}

#[test]
fn platform_parser_only_takes_its_own_links() {
    assert!(Platform::Ponerpics.parse_query("derpibooru.org/1").is_none());
    let q = Platform::Derpibooru.parse_query("derpibooru.org/1").unwrap();
    assert_eq!(q.request.platform, Platform::Derpibooru);
}

#[test]
fn request_names_its_post() {
    let r = Request { platform: Platform::Twibooru, media: 3 };
    assert_eq!(r.post_id(), PostId { platform: Platform::Twibooru, media: 3 });
    assert_eq!(r.post_id().platform_name(), "Twibooru");
    assert_eq!(Platform::at(0), Platform::Derpibooru);
    assert_eq!(Platform::Manebooru.name(), "Manebooru");
    assert_eq!(BlobId { platform: Platform::Furbooru }.platform, Platform::Furbooru);
}

#[test]
fn mirror_rewrites_urls_to_the_typed_host() {
    let m = parse_query("trixiebooru.org/images/42").unwrap().mirror.unwrap();
    let canonical = Platform::Derpibooru.post_web_url(42);
    assert_eq!(m.try_update_url_to_mirror(&canonical).unwrap(), "https://trixiebooru.org/images/42");
    assert!(m.try_update_url_to_mirror("not a url").is_none());
}

#[test]
fn trims_unicode_white_space() {
    use_trim();
    let q = parse_query("\u{3000}\t derpibooru.org/5\u{a0}\u{2029}").unwrap();
    assert_eq!(q.request.media, 5);
}

fn use_trim() {
    assert_eq!(trim("  a b \n"), "a b");
    assert_eq!(trim("\u{85}\u{200a}x\u{202f}"), "x");
    assert_eq!(trim(" \t "), "");
    assert_eq!(trim("x\u{200b}"), "x\u{200b}");
    assert!(white_space('\u{1680}'));
    assert!(!white_space('a'));
}
