//! Transcoding of media the CDN refuses: the codec tool's argument lists, the
//! output file's path, and which blobs need it.

use vstd::prelude::*;
use vstd::string::*;

use crate::repo::{CdnFileKind, CdnFileMeta};

verus! {

/// Length of the random part of an output file's name.
pub const OUTPUT_ID_LEN: usize = 21;

/// Whether `c` belongs to the URL-safe alphabet of random ids.
pub open spec fn is_safe_id_char(c: char) -> bool {
    ('a' <= c && c <= 'z') || ('A' <= c && c <= 'Z') || ('0' <= c && c <= '9') || c == '_' || c == '-'
}

/// The arguments every transcoding shares: overwrite, keep the frame rate,
/// scale with `scale` (which rounds dimensions to even numbers), H.264 with the
/// `faster` preset, `yuv420p` pixels, CRF 23, and a fast-start layout.
pub open spec fn common_args_spec(scale: Seq<char>) -> Seq<Seq<char>> {
    seq![
        "-y"@,
        "-fps_mode"@,
        "passthrough"@,
        "-vf"@,
        scale,
        "-c:v"@,
        "libx264"@,
        "-preset"@,
        "faster"@,
        "-pix_fmt"@,
        "yuv420p"@,
        "-crf"@,
        "23"@,
        "-movflags"@,
        "+faststart"@
    ]
}

/// Arguments that turn the GIF at `input` into an MP4 at `output`, without audio.
pub open spec fn gif_args_spec(input: Seq<char>, output: Seq<char>, scale: Seq<char>) -> Seq<Seq<char>> {
    seq!["-f"@, "gif"@, "-i"@, input] + common_args_spec(scale) + seq!["-an"@, output]
}

/// Arguments that turn the WebM at `input` into an MP4 at `output`.
pub open spec fn webm_args_spec(input: Seq<char>, output: Seq<char>, scale: Seq<char>) -> Seq<Seq<char>> {
    seq!["-f"@, "webm"@, "-i"@, input] + common_args_spec(scale) + seq![output]
}

/// The views of a list of strings.
pub open spec fn views(v: Seq<String>) -> Seq<Seq<char>> {
    v.map_values(|x: String| x@)
}

/// The path of file `name` in directory `dir`.
pub open spec fn path_join(dir: Seq<char>, name: Seq<char>) -> Seq<char> {
    if dir.len() > 0 && dir.last() == '/' {
        dir + name
    } else {
        dir + seq!['/'] + name
    }
}

fn push_str(v: &mut Vec<String>, s: &str)
    ensures
        views(final(v)@) == views(old(v)@).push(s@),
{
    v.push(String::from_str(s));
    assert(views(final(v)@) =~= views(old(v)@).push(s@));
}

/// The arguments every transcoding shares, with the scale filter `scale`.
pub fn common_args(scale: &str) -> (r: Vec<String>)
    ensures
        views(r@) == common_args_spec(scale@),
{
    let mut r: Vec<String> = Vec::new();
    push_str(&mut r, "-y");
    push_str(&mut r, "-fps_mode");
    push_str(&mut r, "passthrough");
    push_str(&mut r, "-vf");
    push_str(&mut r, scale);
    push_str(&mut r, "-c:v");
    push_str(&mut r, "libx264");
    push_str(&mut r, "-preset");
    push_str(&mut r, "faster");
    push_str(&mut r, "-pix_fmt");
    push_str(&mut r, "yuv420p");
    push_str(&mut r, "-crf");
    push_str(&mut r, "23");
    push_str(&mut r, "-movflags");
    push_str(&mut r, "+faststart");
    assert(views(r@) =~= common_args_spec(scale@));
    r
}

/// Collects a command's arguments in order.
pub struct ArgsBuilder {
    pub args: Vec<String>,
}

impl ArgsBuilder {
    /// A builder that starts with `args`.
    pub fn new(args: Vec<String>) -> (r: Self)
        ensures
            r.args@ == args@,
    {
        ArgsBuilder { args }
    }

    /// Appends the arguments of `more`.
    pub fn with_args(self, more: Vec<String>) -> (r: Self)
        ensures
            r.args@ == self.args@ + more@,
    {
        let mut args = self.args;
        let mut more = more;
        args.append(&mut more);
        ArgsBuilder { args }
    }

    /// Appends one argument.
    pub fn with_arg(self, arg: String) -> (r: Self)
        ensures
            r.args@ == self.args@.push(arg),
    {
        let mut args = self.args;
        args.push(arg);
        ArgsBuilder { args }
    }
}

fn input_args(format: &str, input: &str) -> (r: Vec<String>)
    ensures
        views(r@) == seq!["-f"@, format@, "-i"@, input@],
{
    let mut r: Vec<String> = Vec::new();
    push_str(&mut r, "-f");
    push_str(&mut r, format);
    push_str(&mut r, "-i");
    push_str(&mut r, input);
    assert(views(r@) =~= seq!["-f"@, format@, "-i"@, input@]);
    r
}

/// The codec tool's arguments for turning the GIF at `input` into an MP4 at
/// `output`: forced `gif` input, the common arguments, and no audio stream.
pub fn gif_to_mp4_args(input: &str, output: &str, scale: &str) -> (r: Vec<String>)
    ensures
        views(r@) == gif_args_spec(input@, output@, scale@),
{
    let b = ArgsBuilder::new(input_args("gif", input)).with_args(common_args(scale)).with_arg(
        String::from_str("-an"),
    ).with_arg(String::from_str(output));
    let r = b.args;
    assert(views(r@) =~= gif_args_spec(input@, output@, scale@));
    r
}

/// The codec tool's arguments for turning the WebM at `input` into an MP4 at
/// `output`: forced `webm` input and the common arguments.
pub fn webm_to_mp4_args(input: &str, output: &str, scale: &str) -> (r: Vec<String>)
    ensures
        views(r@) == webm_args_spec(input@, output@, scale@),
{
    let b = ArgsBuilder::new(input_args("webm", input)).with_args(common_args(scale)).with_arg(
        String::from_str(output),
    );
    let r = b.args;
    assert(views(r@) =~= webm_args_spec(input@, output@, scale@));
    r
}

/// Relies on `nanoid::format` with the default random source and the `SAFE`
/// alphabet: `size` characters, each a letter, a digit, `_` or `-`. It never
/// returns for a size of zero.
#[verifier::external_body]
fn random_id(size: usize) -> (r: String)
    requires
        0 < size <= 4096,
    ensures
        r@.len() == size,
        forall|i: int| 0 <= i < r@.len() ==> is_safe_id_char(#[trigger] r@[i]),
{
    nanoid::format(nanoid::rngs::default, &nanoid::alphabet::SAFE, size)
}

/// The path of the output file named `id` with an `.mp4` extension in `dir`.
pub fn output_path_for(dir: &str, id: &str) -> (r: String)
    ensures
        r@ == path_join(dir@, id@ + ".mp4"@),
{
    let mut r = String::from_str(dir);
    let n = dir.unicode_len();
    if n == 0 || dir.get_char(n - 1) != '/' {
        r.append("/");
        proof {
            reveal_strlit("/");
        }
    }
    r.append(id);
    r.append(".mp4");
    r
}

/// A fresh output path in `dir`: a random file name of `OUTPUT_ID_LEN`
/// URL-safe characters with an `.mp4` extension.
pub fn output_path(dir: &str) -> (r: String)
    ensures
        exists|id: Seq<char>|
            id.len() == OUTPUT_ID_LEN && (forall|i: int| 0 <= i < id.len() ==> is_safe_id_char(#[trigger] id[i]))
                && r@ == path_join(dir@, id + ".mp4"@),
{
    let id = random_id(OUTPUT_ID_LEN);
    output_path_for(dir, id.as_str())
}

/// How a blob must be transcoded before the CDN takes it.
#[derive(Clone, Copy, Debug, PartialEq, Eq, Structural)]
pub enum Conversion {
    Keep,
    GifToMp4,
    WebmToMp4,
}

/// What to do with one blob of a post.
#[derive(Clone, Debug)]
pub enum BlobPlan {
    /// It is cached already: answer with this handle.
    Reuse(CdnFileMeta),
    /// Download it, transcode it as said, and upload it with this kind.
    Upload { conversion: Conversion, kind: CdnFileKind },
}

/// The transcoding and upload kind a MIME type calls for: GIFs become MP4
/// animations, WebM becomes MP4 video, MP4 is uploaded as video, JPEG and PNG
/// as photos, anything else as a document.
pub open spec fn upload_for(mime: Seq<char>) -> (Conversion, CdnFileKind) {
    if mime == "image/gif"@ {
        (Conversion::GifToMp4, CdnFileKind::AnimatedGif)
    } else if mime == "video/webm"@ {
        (Conversion::WebmToMp4, CdnFileKind::Video)
    } else if mime == "video/mp4"@ {
        (Conversion::Keep, CdnFileKind::Video)
    } else if mime == "image/jpeg"@ || mime == "image/png"@ {
        (Conversion::Keep, CdnFileKind::Photo)
    } else {
        (Conversion::Keep, CdnFileKind::Document)
    }
}

/// The transcoding and upload kind for a MIME type.
pub fn upload_kind(mime: &str) -> (r: (Conversion, CdnFileKind))
    ensures
        r == upload_for(mime@),
{
    let m = String::from_str(mime);
    if m == String::from_str("image/gif") {
        (Conversion::GifToMp4, CdnFileKind::AnimatedGif)
    } else if m == String::from_str("video/webm") {
        (Conversion::WebmToMp4, CdnFileKind::Video)
    } else if m == String::from_str("video/mp4") {
        (Conversion::Keep, CdnFileKind::Video)
    } else if m == String::from_str("image/jpeg") || m == String::from_str("image/png") {
        (Conversion::Keep, CdnFileKind::Photo)
    } else {
        (Conversion::Keep, CdnFileKind::Document)
    }
}

/// What to do with a blob: reuse its cached handle, or upload it as its MIME
/// type calls for.
pub fn plan_blob(cached: Option<CdnFileMeta>, mime: &str) -> (r: BlobPlan)
    ensures
        cached matches Some(m) ==> (r matches BlobPlan::Reuse(n) && n == m),
        cached is None ==> (r matches BlobPlan::Upload { conversion, kind } && (conversion, kind)
            == upload_for(mime@)),
{
    match cached {
        Some(m) => BlobPlan::Reuse(m),
        None => {
            let (conversion, kind) = upload_kind(mime);
            BlobPlan::Upload { conversion, kind }
        },
    }
}

} // verus!
