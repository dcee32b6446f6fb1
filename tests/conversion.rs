use snowpity_tg::convert::{
    common_args, gif_to_mp4_args, output_path, output_path_for, plan_blob, upload_kind, webm_to_mp4_args, ArgsBuilder,
    BlobPlan, Conversion, OUTPUT_ID_LEN,
};
use snowpity_tg::process::{check_exit, display_command, output_text};
use snowpity_tg::repo::{CdnFileKind, CdnFileMeta};

const SCALE: &str = "scale=trunc(iw/2)*2:trunc(ih/2)*2";

fn common() -> Vec<&'static str> {
    vec![
        "-y", "-fps_mode", "passthrough", "-vf", SCALE, "-c:v", "libx264", "-preset", "faster", "-pix_fmt", "yuv420p",
        "-crf", "23", "-movflags", "+faststart",
    ]
}

#[test]
fn common_arguments() {
    assert_eq!(common_args(SCALE), common());
}

#[test]
fn gif_arguments_strip_audio() {
    let mut expected = vec!["-f", "gif", "-i", "in.gif"];
    expected.extend(common());
    expected.extend(["-an", "/tmp/out.mp4"]);
    assert_eq!(gif_to_mp4_args("in.gif", "/tmp/out.mp4", SCALE), expected);
}

#[test]
fn webm_arguments() {
    let mut expected = vec!["-f", "webm", "-i", "in.webm"];
    expected.extend(common());
    expected.push("/tmp/out.mp4");
    assert_eq!(webm_to_mp4_args("in.webm", "/tmp/out.mp4", SCALE), expected);
}

#[test]
fn args_builder_appends_in_order() {
    let b = ArgsBuilder::new(vec!["a".to_owned()]).with_args(vec!["b".to_owned(), "c".to_owned()]).with_arg("d".to_owned());
    assert_eq!(b.args, vec!["a", "b", "c", "d"]);
}

#[test]
fn output_paths() {
    assert_eq!(output_path_for("/tmp", "abc"), "/tmp/abc.mp4");
    assert_eq!(output_path_for("/tmp/", "abc"), "/tmp/abc.mp4");
    let p = output_path("/tmp");
    assert!(p.starts_with("/tmp/") && p.ends_with(".mp4"));
    let id = &p["/tmp/".len()..p.len() - ".mp4".len()];
    assert_eq!(id.len(), OUTPUT_ID_LEN);
    assert!(id.chars().all(|c| c.is_ascii_alphanumeric() || c == '_' || c == '-'));
    assert_ne!(output_path("/tmp"), p);
}

#[test]
fn gif_blobs_become_animations() {
    assert_eq!(upload_kind("image/gif"), (Conversion::GifToMp4, CdnFileKind::AnimatedGif));
    assert_eq!(upload_kind("video/webm"), (Conversion::WebmToMp4, CdnFileKind::Video));
    assert_eq!(upload_kind("video/mp4"), (Conversion::Keep, CdnFileKind::Video));
    assert_eq!(upload_kind("image/png"), (Conversion::Keep, CdnFileKind::Photo));
    assert_eq!(upload_kind("image/jpeg"), (Conversion::Keep, CdnFileKind::Photo));
    assert_eq!(upload_kind("image/svg+xml"), (Conversion::Keep, CdnFileKind::Document));
    match plan_blob(None, "image/gif") {
        BlobPlan::Upload { conversion, kind } => {
            assert_eq!(conversion, Conversion::GifToMp4);
            assert_eq!(kind, CdnFileKind::AnimatedGif);
        }
        BlobPlan::Reuse(_) => panic!("nothing was cached"),
    }
}

#[test]
fn cached_blobs_are_reused() {
    let cached = CdnFileMeta { id: "cdn-xyz".to_owned(), kind: CdnFileKind::Photo };
    match plan_blob(Some(cached), "image/gif") {
        BlobPlan::Reuse(m) => {
            assert_eq!(m.id, "cdn-xyz");
            assert_eq!(m.kind, CdnFileKind::Photo);
        }
        BlobPlan::Upload { .. } => panic!("the blob was cached"),
    }
}

#[test]
fn command_lines_are_shell_quoted() {
    let args = vec!["-i".to_owned(), "a b.gif".to_owned(), "x".to_owned()];
    assert_eq!(display_command("ffmpeg", &args), "ffmpeg -i 'a b.gif' x");
}

#[test]
fn exit_status_is_checked() {
    assert!(check_exit(true, "ffmpeg", "exit status: 0", "ffmpeg -y", "").is_ok());
    assert_eq!(
        check_exit(false, "ffmpeg", "exit status: 1", "ffmpeg -y", "boom").unwrap_err(),
        "ffmpeg invocation failed with status exit status: 1. Command:\nffmpeg -y\nStderr:\nboom"
    );
}

#[test]
fn output_must_be_utf8() {
    assert_eq!(output_text("héllo".as_bytes().to_vec()).unwrap(), "héllo");
    assert_eq!(output_text(vec![0xff, 0x41]).unwrap_err(), vec![0xff, 0x41]);
}
