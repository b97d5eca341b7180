//! The fixed argument contract of the external transcoder and the names of
//! the artifacts of a transcoding job.

use vstd::prelude::*;
use vstd::string::*;

use crate::models::VideoProcessor;
use crate::text::concat3;

verus! {

/// Why a transcoding job failed.
#[derive(Clone, Copy, Debug, PartialEq, Eq, Structural)]
pub enum TranscodeError {
    /// The re-encode exited with a failure status or could not decode the input.
    EncodeFailed,
    /// The frame extraction exited with a failure status.
    ThumbnailFailed,
}

/// The text of each element of a list of strings.
pub open spec fn texts(v: Seq<String>) -> Seq<Seq<char>> {
    v.map_values(|s: String| s@)
}

/// Arguments of the re-encode: H.264 video at quality 23 with the `medium`
/// preset, AAC audio at 128k, overwriting the output.
pub open spec fn encode_argv(input: Seq<char>, output: Seq<char>) -> Seq<Seq<char>> {
    seq![
        "-i"@, input, "-c:v"@, "libx264"@, "-crf"@, "23"@, "-preset"@, "medium"@,
        "-c:a"@, "aac"@, "-b:a"@, "128k"@, "-y"@, output,
    ]
}

/// Arguments of the frame extraction: one frame, one second into the stream.
pub open spec fn thumbnail_argv(input: Seq<char>, output: Seq<char>) -> Seq<Seq<char>> {
    seq!["-i"@, input, "-ss"@, "00:00:01"@, "-vframes"@, "1"@, "-y"@, output]
}

/// The final component of a path without its extension, as the standard
/// library computes it.
pub uninterp spec fn file_stem_of(name: Seq<char>) -> Option<Seq<char>>;

/// Base name used for artifacts: the stem, or `video` where there is none.
pub open spec fn base_name(stem: Option<Seq<char>>) -> Seq<char> {
    match stem {
        Some(s) => s,
        None => "video"@,
    }
}

/// `{base}-{job}.mp4`
pub open spec fn video_artifact_name(base: Seq<char>, job: Seq<char>) -> Seq<char> {
    base + "-"@ + job + ".mp4"@
}

/// `{base}-{job}-thumbnail.jpg`
pub open spec fn thumbnail_artifact_name(base: Seq<char>, job: Seq<char>) -> Seq<char> {
    base + "-"@ + job + "-thumbnail.jpg"@
}

/// Outcome of a job from the success of its two invocations; a failed
/// re-encode is reported before a failed frame extraction.
pub open spec fn transcode_result(encode_ok: bool, thumbnail_ok: bool) -> Result<(), TranscodeError> {
    if !encode_ok {
        Err(TranscodeError::EncodeFailed)
    } else if !thumbnail_ok {
        Err(TranscodeError::ThumbnailFailed)
    } else {
        Ok(())
    }
}

fn push_arg(v: &mut Vec<String>, a: &str)
    ensures
        texts(final(v)@) == texts(old(v)@).push(a@),
{
    v.push(String::from_str(a));
    assert(texts(v@) =~= texts(old(v)@).push(a@));
}

/// Relies on std::path::Path::file_stem (and OsStr::to_str, which cannot
/// fail on a stem cut from a `str`): the stem of a file name.
#[verifier::external_body]
fn file_stem(name: &str) -> (r: Option<String>)
    ensures
        r.deep_view() == file_stem_of(name@),
        name@.len() == 0 ==> r is None,
{
    std::path::Path::new(name).file_stem().and_then(|s| s.to_str()).map(|s| s.to_string())
}

impl TranscodeError {
    /// Combines the success of the re-encode and of the frame extraction.
    pub fn from_statuses(encode_ok: bool, thumbnail_ok: bool) -> (r: Result<(), TranscodeError>)
        ensures
            r == transcode_result(encode_ok, thumbnail_ok),
    {
        if !encode_ok {
            Err(TranscodeError::EncodeFailed)
        } else if !thumbnail_ok {
            Err(TranscodeError::ThumbnailFailed)
        } else {
            Ok(())
        }
    }

    /// A short reason for operators.
    pub fn message(&self) -> (r: &'static str) {
        match self {
            TranscodeError::EncodeFailed => "FFmpeg processing failed",
            TranscodeError::ThumbnailFailed => "Thumbnail generation failed",
        }
    }
}

/// Names of the two uploaded artifacts of a job, from the stem of the
/// declared file name (if any) and the job's id.
pub fn artifact_names(stem: Option<&str>, job_id: &str) -> (r: (String, String))
    ensures
        r.0@ == video_artifact_name(base_name(stem.deep_view()), job_id@),
        r.1@ == thumbnail_artifact_name(base_name(stem.deep_view()), job_id@),
{
    let base: &str = match stem {
        Some(s) => s,
        None => "video",
    };
    let mut video = concat3(base, "-", job_id);
    video.append(".mp4");
    let mut thumbnail = concat3(base, "-", job_id);
    thumbnail.append("-thumbnail.jpg");
    (video, thumbnail)
}

/// The base name of the artifacts of a declared file name: its stem, or
/// `video` where it has none.
pub fn base_name_of(filename: &str) -> (r: String)
    ensures
        r@ == base_name(file_stem_of(filename@)),
{
    match file_stem(filename) {
        Some(s) => s,
        None => String::from_str("video"),
    }
}

impl VideoProcessor {
    /// Arguments of the transcoder's re-encode of `input` into `output`.
    pub fn encode_args(input: &str, output: &str) -> (r: Vec<String>)
        ensures
            texts(r@) == encode_argv(input@, output@),
    {
        let mut v: Vec<String> = Vec::new();
        push_arg(&mut v, "-i");
        push_arg(&mut v, input);
        push_arg(&mut v, "-c:v");
        push_arg(&mut v, "libx264");
        push_arg(&mut v, "-crf");
        push_arg(&mut v, "23");
        push_arg(&mut v, "-preset");
        push_arg(&mut v, "medium");
        push_arg(&mut v, "-c:a");
        push_arg(&mut v, "aac");
        push_arg(&mut v, "-b:a");
        push_arg(&mut v, "128k");
        push_arg(&mut v, "-y");
        push_arg(&mut v, output);
        assert(texts(v@) =~= encode_argv(input@, output@));
        v
    }

    /// Arguments of the transcoder's extraction of one frame of `input`
    /// into `output`.
    pub fn thumbnail_args(input: &str, output: &str) -> (r: Vec<String>)
        ensures
            texts(r@) == thumbnail_argv(input@, output@),
    {
        let mut v: Vec<String> = Vec::new();
        push_arg(&mut v, "-i");
        push_arg(&mut v, input);
        push_arg(&mut v, "-ss");
        push_arg(&mut v, "00:00:01");
        push_arg(&mut v, "-vframes");
        push_arg(&mut v, "1");
        push_arg(&mut v, "-y");
        push_arg(&mut v, output);
        assert(texts(v@) =~= thumbnail_argv(input@, output@));
        v
    }

    /// Names of the two uploaded artifacts of job `job_id` for the declared
    /// file name `filename`: `{stem}-{job}.mp4` and
    /// `{stem}-{job}-thumbnail.jpg`, with `video` for a name without stem.
    pub fn output_names(filename: &str, job_id: &str) -> (r: (String, String))
        ensures
            r.0@ == video_artifact_name(base_name(file_stem_of(filename@)), job_id@),
            r.1@ == thumbnail_artifact_name(base_name(file_stem_of(filename@)), job_id@),
    {
        match file_stem(filename) {
            Some(s) => artifact_names(Some(s.as_str()), job_id),
            None => artifact_names(None, job_id),
        }
    }
}

} // verus!
