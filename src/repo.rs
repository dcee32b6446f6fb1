//! The blob-cache repository's rules: one table per platform mapping a media
//! id to the CDN file it was uploaded as. The database I/O itself is done by
//! the runtime with the statements and row codecs given here.

use vstd::prelude::*;
use vstd::string::*;

use crate::platform::{table_word, MediaId, Platform};
use crate::query::{BlobId, PostId};

verus! {

/// The CDN method a file was uploaded with.
#[derive(Clone, Copy, Debug, PartialEq, Eq, Structural, Hash)]
pub enum CdnFileKind {
    Photo,
    Document,
    Video,
    AnimatedGif,
}

/// A file handle on the messaging platform's CDN.
#[derive(Clone, Debug)]
pub struct CdnFileMeta {
    pub id: String,
    pub kind: CdnFileKind,
}

/// A blob together with the CDN file it was uploaded as.
#[derive(Clone, Debug)]
pub struct CachedBlob {
    pub id: BlobId,
    pub cdn_file: CdnFileMeta,
}

/// What can go wrong in the repository.
#[derive(Clone, Debug)]
pub enum RepoError {
    /// The media id does not fit the table's signed 64-bit key.
    MediaIdOutOfRange(MediaId),
    /// A stored kind code names no `CdnFileKind`.
    UnknownFileKind(i16),
    /// A row for the media id exists already.
    AlreadyCached,
    /// Any other database failure, with the database's error code.
    Database(String),
}

/// The code a kind is stored as.
pub open spec fn kind_code(k: CdnFileKind) -> i16 {
    match k {
        CdnFileKind::Photo => 0,
        CdnFileKind::Document => 1,
        CdnFileKind::Video => 2,
        CdnFileKind::AnimatedGif => 3,
    }
}

/// The kind a stored code names, if any.
pub open spec fn kind_of_code(v: i16) -> Option<CdnFileKind> {
    if v == 0 {
        Some(CdnFileKind::Photo)
    } else if v == 1 {
        Some(CdnFileKind::Document)
    } else if v == 2 {
        Some(CdnFileKind::Video)
    } else if v == 3 {
        Some(CdnFileKind::AnimatedGif)
    } else {
        None
    }
}

/// The SQL state of a unique-key violation.
pub open spec fn unique_violation_code() -> Seq<char> {
    "23505"@
}

/// The columns a file handle with this id and kind is stored as.
pub open spec fn row_encode(id: Seq<char>, kind: CdnFileKind) -> (Seq<char>, i16) {
    (id, kind_code(kind))
}

/// The file handle, as id and kind, that a stored row stands for.
pub open spec fn row_decode(id: Seq<char>, code: i16) -> Option<(Seq<char>, CdnFileKind)> {
    match kind_of_code(code) {
        Some(k) => Some((id, k)),
        None => None,
    }
}

/// The name of a platform's blob-cache table.
pub open spec fn table_name(p: Platform) -> Seq<char> {
    "tg_"@ + table_word(p) + "_blob_cache"@
}

impl CdnFileKind {
    /// The code the kind is stored as.
    pub fn to_i16(self) -> (r: i16)
        ensures
            r == kind_code(self),
    {
        match self {
            CdnFileKind::Photo => 0,
            CdnFileKind::Document => 1,
            CdnFileKind::Video => 2,
            CdnFileKind::AnimatedGif => 3,
        }
    }

    /// The kind a stored code names; fails on any code but `0..=3`.
    pub fn from_i16(v: i16) -> (r: Result<CdnFileKind, RepoError>)
        ensures
            r is Ok <==> kind_of_code(v) is Some,
            r matches Ok(k) ==> kind_of_code(v) == Some(k),
            r matches Err(e) ==> e == RepoError::UnknownFileKind(v),
    {
        if v == 0 {
            Ok(CdnFileKind::Photo)
        } else if v == 1 {
            Ok(CdnFileKind::Document)
        } else if v == 2 {
            Ok(CdnFileKind::Video)
        } else if v == 3 {
            Ok(CdnFileKind::AnimatedGif)
        } else {
            Err(RepoError::UnknownFileKind(v))
        }
    }
}

/// Stored kind codes and kinds are one to one: a kind read back from its code
/// is the kind itself, and a code outside `0..=3` names no kind.
pub proof fn lemma_kind_code_round_trip(k: CdnFileKind, v: i16)
    ensures
        kind_of_code(kind_code(k)) == Some(k),
        kind_of_code(v) matches Some(j) ==> kind_code(j) == v,
        (v < 0 || v > 3) ==> kind_of_code(v) is None,
{
}

/// The key a media id is stored under; fails when it does not fit an `i64`.
pub fn media_id_to_db(id: MediaId) -> (r: Result<i64, RepoError>)
    ensures
        r is Ok <==> id <= i64::MAX,
        r matches Ok(v) ==> v == id,
        r matches Err(e) ==> e == RepoError::MediaIdOutOfRange(id),
{
    if id <= 9223372036854775807u64 {
        Ok(id as i64)
    } else {
        Err(RepoError::MediaIdOutOfRange(id))
    }
}

/// The columns a file handle is stored as: its id and its kind's code.
pub fn meta_to_row(meta: &CdnFileMeta) -> (r: (String, i16))
    ensures
        (r.0@, r.1) == row_encode(meta.id@, meta.kind),
{
    (meta.id.clone(), meta.kind.to_i16())
}

/// The file handle a stored row stands for; fails when the kind code is unknown.
pub fn meta_from_row(id: String, kind: i16) -> (r: Result<CdnFileMeta, RepoError>)
    ensures
        r is Ok <==> row_decode(id@, kind) is Some,
        r matches Ok(m) ==> row_decode(id@, kind) == Some((m.id@, m.kind)),
        r matches Err(e) ==> e == RepoError::UnknownFileKind(kind),
{
    match CdnFileKind::from_i16(kind) {
        Ok(k) => Ok(CdnFileMeta { id, kind: k }),
        Err(e) => Err(e),
    }
}

/// Writing a file handle as a row and reading the row back gives the same
/// handle: the same id and the same kind.
pub proof fn lemma_row_round_trip(id: Seq<char>, kind: CdnFileKind)
    ensures
        row_decode(row_encode(id, kind).0, row_encode(id, kind).1) == Some((id, kind)),
{
}

/// The outcome of an insert, from the database's error code when it failed:
/// a unique-key violation means another writer cached the media first.
pub fn insert_outcome(error_code: Option<&str>) -> (r: Result<(), RepoError>)
    ensures
        error_code is None <==> r is Ok,
        error_code matches Some(c) ==> (c@ == unique_violation_code() <==> r matches Err(
            RepoError::AlreadyCached,
        )),
        error_code matches Some(c) ==> (c@ != unique_violation_code() ==> (r matches Err(
            RepoError::Database(m),
        ) && m@ == c@)),
{
    match error_code {
        None => Ok(()),
        Some(c) => {
            if String::from_str(c) == String::from_str("23505") {
                Err(RepoError::AlreadyCached)
            } else {
                Err(RepoError::Database(String::from_str(c)))
            }
        },
    }
}

/// Caching a blob treats a lost insert race as success: the row the other
/// writer installed stays, and nothing is overwritten.
pub fn settle_insert(r: Result<(), RepoError>) -> (s: Result<(), RepoError>)
    ensures
        s is Ok <==> (r is Ok || r matches Err(RepoError::AlreadyCached)),
        s matches Err(e) ==> r == Err::<(), RepoError>(e),
{
    match r {
        Err(RepoError::AlreadyCached) => Ok(()),
        other => other,
    }
}

/// A platform's blob-cache table.
pub struct BlobCacheRepo {
    pub platform: Platform,
}

impl BlobCacheRepo {
    /// The table of the given platform.
    pub fn new(platform: Platform) -> (r: Self)
        ensures
            r.platform == platform,
    {
        BlobCacheRepo { platform }
    }

    /// The values the insert statement stores for `blob` of post `post`: the
    /// media id as the table's key, the file id and the kind's code. The post,
    /// the blob and the table must all be of one platform.
    pub fn insert_row(&self, post: PostId, blob: &CachedBlob) -> (r: Result<(i64, String, i16), RepoError>)
        requires
            post.platform == self.platform,
            blob.id.platform == post.platform,
        ensures
            r is Ok <==> post.media <= i64::MAX,
            r matches Ok((k, id, code)) ==> k == post.media && (id@, code) == row_encode(
                blob.cdn_file.id@,
                blob.cdn_file.kind,
            ),
            r matches Err(e) ==> e == RepoError::MediaIdOutOfRange(post.media),
    {
        let key = match media_id_to_db(post.media) {
            Ok(k) => k,
            Err(e) => return Err(e),
        };
        let (id, code) = meta_to_row(&blob.cdn_file);
        Ok((key, id, code))
    }

    /// Name of the table.
    pub fn table_name(&self) -> (r: String)
        ensures
            r@ == table_name(self.platform),
    {
        let mut r = String::from_str("tg_");
        r.append(self.platform.table_word());
        r.append("_blob_cache");
        r
    }

    /// The statement that stores a row: media id, file id, kind code.
    pub fn insert_statement(&self) -> (r: String)
        ensures
            r@ == "insert into "@ + table_name(self.platform)
                + " (media_id, cdn_file_id, cdn_file_kind) values ($1, $2, $3)"@,
    {
        let mut r = String::from_str("insert into ");
        r.append(self.table_name().as_str());
        r.append(" (media_id, cdn_file_id, cdn_file_kind) values ($1, $2, $3)");
        r
    }

    /// The statement that reads the file id and kind code of a media id.
    pub fn select_statement(&self) -> (r: String)
        ensures
            r@ == "select cdn_file_id, cdn_file_kind from "@ + table_name(self.platform)
                + " where media_id = $1"@,
    {
        let mut r = String::from_str("select cdn_file_id, cdn_file_kind from ");
        r.append(self.table_name().as_str());
        r.append(" where media_id = $1");
        r
    }
}

} // verus!
