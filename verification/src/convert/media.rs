//! Media engine: an ffmpeg subprocess. Video to GIF caps resolution and
//! framerate so output stays sane. The caller looks for ffmpeg; this decides
//! what that finding means.
use vstd::prelude::*;
use super::{ConvertError, ErrorView};

verus! {

/// Width cap applied to video-to-GIF output.
pub const GIF_MAX_WIDTH: u32 = 480;

/// Framerate cap applied to video-to-GIF output.
pub const GIF_MAX_FPS: u32 = 15;

/// Where the bundled ffmpeg is expected: `Zest/ffmpeg/ffmpeg.exe` in the
/// local data directory, or a bare `ffmpeg.exe` when there is none.
pub open spec fn bundled_ffmpeg(data_dir: Option<Seq<char>>) -> Seq<char> {
    match data_dir {
        Some(d) => crate::path::join(
            crate::path::join(crate::settings::app_dir(d), "ffmpeg"@),
            "ffmpeg.exe"@,
        ),
        None => "ffmpeg.exe"@,
    }
}

/// The bundled ffmpeg's location, given the local data directory.
pub fn ffmpeg_path_in(data_dir: Option<&str>) -> (r: String)
    ensures
        r@ == bundled_ffmpeg(match data_dir { Some(d) => Some(d@), None => None }),
{
    match data_dir {
        Some(d) => {
            let zest = crate::path::join_str(d, "Zest");
            let dir = crate::path::join_str(zest.as_str(), "ffmpeg");
            crate::path::join_str(dir.as_str(), "ffmpeg.exe")
        },
        None => "ffmpeg.exe".to_owned(),
    }
}

/// Expected bundled location of ffmpeg (the installer puts it there).
pub fn ffmpeg_path() -> (r: String)
    ensures
        exists|d: Option<Seq<char>>| r@ == bundled_ffmpeg(d),
{
    let dir = crate::settings::local_data_dir();
    let r = match &dir {
        Some(d) => ffmpeg_path_in(Some(d.as_str())),
        None => ffmpeg_path_in(None),
    };
    assert(r@ == bundled_ffmpeg(match dir { Some(d) => Some(d@), None => None }));
    r
}

/// What a media conversion reports: ffmpeg is missing when neither the bundled
/// copy exists nor one on `PATH` runs; otherwise the engine is not built yet.
pub open spec fn media_result(bundled_exists: bool, on_path_runs: bool, ffmpeg_path: Seq<char>) -> ErrorView {
    if !bundled_exists && !on_path_runs {
        ErrorView::FfmpegMissing(ffmpeg_path)
    } else {
        ErrorView::NotImplemented("media engine (ffmpeg subprocess)"@)
    }
}

pub fn outcome(bundled_exists: bool, on_path_runs: bool, ffmpeg_path: &str) -> (r: ConvertError)
    ensures
        r@ == media_result(bundled_exists, on_path_runs, ffmpeg_path@),
{
    if !bundled_exists && !on_path_runs {
        ConvertError::FfmpegMissing(ffmpeg_path.to_owned())
    } else {
        ConvertError::NotImplemented("media engine (ffmpeg subprocess)".to_owned())
    }
}

/// Video-to-GIF output is capped at 480 pixels wide and 15 frames a second.
pub proof fn law_gif_caps()
    ensures
        GIF_MAX_WIDTH == 480,
        GIF_MAX_FPS == 15,
{
}

} // verus!
