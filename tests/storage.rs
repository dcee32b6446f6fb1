use snowpity_tg::convert::{plan_blob, BlobPlan};
use snowpity_tg::query::parse_query;
use snowpity_tg::platform::Platform;
use snowpity_tg::query::{BlobId, PostId};
use snowpity_tg::repo::{
    insert_outcome, media_id_to_db, meta_from_row, meta_to_row, settle_insert, BlobCacheRepo, CachedBlob,
    CdnFileKind, CdnFileMeta, RepoError,
};

#[test]
fn kind_codes_round_trip() {
    for k in [CdnFileKind::Photo, CdnFileKind::Document, CdnFileKind::Video, CdnFileKind::AnimatedGif] {
        assert_eq!(CdnFileKind::from_i16(k.to_i16()).unwrap(), k);
    }
    assert_eq!(CdnFileKind::Photo.to_i16(), 0);
    assert_eq!(CdnFileKind::Document.to_i16(), 1);
    assert_eq!(CdnFileKind::Video.to_i16(), 2);
    assert_eq!(CdnFileKind::AnimatedGif.to_i16(), 3);
    assert!(matches!(CdnFileKind::from_i16(4), Err(RepoError::UnknownFileKind(4))));
    assert!(matches!(CdnFileKind::from_i16(-1), Err(RepoError::UnknownFileKind(-1))));
}

#[test]
fn rows_round_trip() {
    let meta = CdnFileMeta { id: "cdn-xyz".to_owned(), kind: CdnFileKind::Video };
    let (id, code) = meta_to_row(&meta);
    assert_eq!(code, 2);
    let back = meta_from_row(id, code).unwrap();
    assert_eq!(back.id, "cdn-xyz");
    assert_eq!(back.kind, CdnFileKind::Video);
    assert!(matches!(meta_from_row("x".to_owned(), 9), Err(RepoError::UnknownFileKind(9))));
}

#[test]
fn lost_insert_race_is_benign() {
    assert!(insert_outcome(None).is_ok());
    let conflict = insert_outcome(Some("23505"));
    assert!(matches!(conflict, Err(RepoError::AlreadyCached)));
    assert!(settle_insert(conflict).is_ok());
    let other = insert_outcome(Some("08006"));
    assert!(matches!(&other, Err(RepoError::Database(c)) if c == "08006"));
    assert!(settle_insert(other).is_err());
}

#[test]
fn media_ids_must_fit_the_key() {
    assert_eq!(media_id_to_db(42).unwrap(), 42);
    assert!(matches!(media_id_to_db(u64::MAX), Err(RepoError::MediaIdOutOfRange(m)) if m == u64::MAX));
}

#[test]
fn statements_name_the_platform_table() {
    let repo = BlobCacheRepo::new(Platform::Ponerpics);
    assert_eq!(repo.table_name(), "tg_ponerpics_blob_cache");
    assert_eq!(
        repo.insert_statement(),
        "insert into tg_ponerpics_blob_cache (media_id, cdn_file_id, cdn_file_kind) values ($1, $2, $3)"
    );
    assert_eq!(
        repo.select_statement(),
        "select cdn_file_id, cdn_file_kind from tg_ponerpics_blob_cache where media_id = $1"
    );
}

#[test]
fn insert_row_encodes_key_and_file() {
    let repo = BlobCacheRepo::new(Platform::Derpibooru);
    let post = PostId { platform: Platform::Derpibooru, media: 42 };
    let blob = CachedBlob {
        id: BlobId { platform: Platform::Derpibooru },
        cdn_file: CdnFileMeta { id: "cdn-xyz".to_owned(), kind: CdnFileKind::Photo },
    };
    let (key, id, code) = repo.insert_row(post, &blob).unwrap();
    assert_eq!((key, id.as_str(), code), (42, "cdn-xyz", 0));
    let far = PostId { platform: Platform::Derpibooru, media: u64::MAX };
    assert!(repo.insert_row(far, &blob).is_err());
}

#[test]
fn single_hit_reuses_the_cached_file() {
    let q = parse_query("https://derpibooru.org/images/42").unwrap();
    assert_eq!(q.request.post_id(), PostId { platform: Platform::Derpibooru, media: 42 });
    let stored = meta_from_row("cdn-xyz".to_owned(), 0).unwrap();
    match plan_blob(Some(stored), "image/png") {
        BlobPlan::Reuse(m) => {
            assert_eq!(m.id, "cdn-xyz");
            assert_eq!(m.kind, CdnFileKind::Photo);
        }
        BlobPlan::Upload { .. } => panic!("a cached blob needs no upstream work"),
    }
}
