//! Conversion engines behind one `dispatch()`.
//!
//! - image: decode with `image`, re-encode in the target format;
//! - media: an ffmpeg subprocess (not built yet);
//! - text: structured text converters (not built yet);
//! - archive: zip / tar / tar.gz / gzip (not built yet).
//!
//! The operation picks the engine; the input kind only picks the conversion
//! engine within `Convert`. Everything that touches the file system stays with
//! the caller: `dispatch` takes whether the input is a directory and a probe
//! for taken output names, and hands back the step the caller has to run.
use vstd::prelude::*;
use crate::file_kind::{FileKind, kind_of_path, lossy_to_lossy, is_archive_ext, classify_path, should_warn_lossy};
use crate::menu::ext_or_empty;
use crate::naming::{
    unique_result, output_dir, output_stem, trim_leading_dots, output_path_for, consistent, answered,
    candidate, law_never_a_taken_path, MAX_ATTEMPTS,
};
use crate::settings::Settings;
use crate::text::{lower, chars_of, lower_chars, string_of};
use crate::path::path_extension;

pub mod archive;
pub mod image;
pub mod media;
pub mod text;

verus! {

/// Why a conversion failed.
#[derive(Debug, Clone, PartialEq, Eq)]
pub enum ConvertError {
    Unsupported(String, String),
    FfmpegMissing(String),
    Io(String),
    NotImplemented(String),
    /// HEIC is HEVC in a container, and nothing decodes HEVC yet. The message
    /// names the gap rather than blaming the machine.
    HevcUnsupported,
}

/// A conversion error with its strings as characters.
pub ghost enum ErrorView {
    Unsupported(Seq<char>, Seq<char>),
    FfmpegMissing(Seq<char>),
    Io(Seq<char>),
    NotImplemented(Seq<char>),
    HevcUnsupported,
}

impl View for ConvertError {
    type V = ErrorView;

    open spec fn view(&self) -> ErrorView {
        match self {
            ConvertError::Unsupported(a, b) => ErrorView::Unsupported(a@, b@),
            ConvertError::FfmpegMissing(p) => ErrorView::FfmpegMissing(p@),
            ConvertError::Io(m) => ErrorView::Io(m@),
            ConvertError::NotImplemented(m) => ErrorView::NotImplemented(m@),
            ConvertError::HevcUnsupported => ErrorView::HevcUnsupported,
        }
    }
}

/// The user-facing text of a conversion error.
pub open spec fn convert_error_text(e: ErrorView) -> Seq<char> {
    match e {
        ErrorView::Unsupported(a, b) => "unsupported conversion: "@ + a + " -> "@ + b,
        ErrorView::FfmpegMissing(p) => "ffmpeg not found at "@ + p,
        ErrorView::Io(m) => "io: "@ + m,
        ErrorView::NotImplemented(m) => "engine not yet implemented (MVP): "@ + m,
        ErrorView::HevcUnsupported => "HEIC needs HEVC decoding, which Zest does not do yet (SQU-38)"@,
    }
}

impl ConvertError {
    /// The user-facing text of this error.
    pub fn message(&self) -> (r: String)
        ensures
            r@ == convert_error_text(self@),
    {
        match self {
            ConvertError::Unsupported(a, b) => {
                let mut m = "unsupported conversion: ".to_owned();
                m.append(a.as_str());
                m.append(" -> ");
                m.append(b.as_str());
                m
            },
            ConvertError::FfmpegMissing(p) => {
                let mut m = "ffmpeg not found at ".to_owned();
                m.append(p.as_str());
                m
            },
            ConvertError::Io(detail) => {
                let mut m = "io: ".to_owned();
                m.append(detail.as_str());
                m
            },
            ConvertError::NotImplemented(detail) => {
                let mut m = "engine not yet implemented (MVP): ".to_owned();
                m.append(detail.as_str());
                m
            },
            ConvertError::HevcUnsupported => "HEIC needs HEVC decoding, which Zest does not do yet (SQU-38)".to_owned(),
        }
    }
}

pub open spec fn result_view(r: Result<String, ConvertError>) -> Result<Seq<char>, ErrorView> {
    match r {
        Ok(p) => Ok(p@),
        Err(e) => Err(e@),
    }
}

/// What the user picked. The operation picks the engine.
#[derive(Debug, Clone, Copy, PartialEq, Eq, Structural)]
pub enum Operation {
    /// Re-encode the input into `output_ext`.
    Convert,
    /// Pack the input into an archive of format `output_ext`.
    Archive,
    /// Unpack the input archive next to itself.
    Extract,
}

/// One file to process.
#[derive(Debug, Clone)]
pub struct Job {
    pub input: String,
    pub operation: Operation,
    /// Target extension for `Convert`/`Archive` (no dot); unused for `Extract`.
    pub output_ext: String,
    /// Resolved output path (collision-safe). Filled by `dispatch()`.
    pub output: Option<String>,
}

/// A target extension as a job stores it: no leading dots, ASCII lowercase.
pub open spec fn normal_ext(ext: Seq<char>) -> Seq<char> {
    lower(trim_leading_dots(ext))
}

pub open spec fn opt_view(o: Option<String>) -> Option<Seq<char>> {
    match o {
        Some(s) => Some(s@),
        None => None,
    }
}

fn normalized_ext(ext: &str) -> (r: String)
    ensures
        r@ == normal_ext(ext@),
{
    let trimmed = crate::naming::trim_dots_str(ext);
    string_of(&lower_chars(trimmed.as_str()))
}

impl Job {
    /// A conversion of `input` to `output_ext`.
    pub fn new(input: &str, output_ext: &str) -> (r: Self)
        ensures
            r.input@ == input@,
            r.operation == Operation::Convert,
            r.output_ext@ == normal_ext(output_ext@),
            r.output is None,
    {
        Job {
            input: input.to_owned(),
            operation: Operation::Convert,
            output_ext: normalized_ext(output_ext),
            output: None,
        }
    }

    /// Packing `input` into an archive of format `output_ext`.
    pub fn archive(input: &str, output_ext: &str) -> (r: Self)
        ensures
            r.input@ == input@,
            r.operation == Operation::Archive,
            r.output_ext@ == normal_ext(output_ext@),
            r.output is None,
    {
        Job {
            input: input.to_owned(),
            operation: Operation::Archive,
            output_ext: normalized_ext(output_ext),
            output: None,
        }
    }

    /// Unpacking the archive `input` next to itself.
    pub fn extract(input: &str) -> (r: Self)
        ensures
            r.input@ == input@,
            r.operation == Operation::Extract,
            r.output_ext@.len() == 0,
            r.output is None,
    {
        Job { input: input.to_owned(), operation: Operation::Extract, output_ext: String::new(), output: None }
    }
}

/// What the caller has to do next for a job.
#[derive(Debug)]
pub enum DispatchStep {
    /// Nothing left to run: the output path, or why the job failed.
    Finished(Result<String, ConvertError>),
    /// Read `input`, decode it, and write it re-encoded as `ext` to `output`
    /// (see `image::transcode` and `image::write`).
    Transcode { input: String, output: String, ext: String, jpeg_quality: u8 },
    /// Look for ffmpeg, then report through `media::outcome`.
    Media,
}

pub ghost enum StepView {
    Finished(Result<Seq<char>, ErrorView>),
    Transcode(Seq<char>, Seq<char>, Seq<char>, u8),
    Media,
}

impl View for DispatchStep {
    type V = StepView;

    open spec fn view(&self) -> StepView {
        match self {
            DispatchStep::Finished(r) => StepView::Finished(result_view(*r)),
            DispatchStep::Transcode { input, output, ext, jpeg_quality } => StepView::Transcode(
                input@,
                output@,
                ext@,
                *jpeg_quality,
            ),
            DispatchStep::Media => StepView::Media,
        }
    }
}

/// The input's own extension, lowercased (empty when it has none).
pub open spec fn input_ext(input: Seq<char>) -> Seq<char> {
    lower(ext_or_empty(input))
}

/// The step for a conversion whose output path is `output`.
pub open spec fn convert_step(job: Job, kind: FileKind, settings: Settings, output: Seq<char>) -> StepView {
    match kind {
        FileKind::Image => image::image_step(job.input@, job.output_ext@, Some(output), settings.jpeg_quality),
        FileKind::Video | FileKind::Audio => StepView::Media,
        FileKind::TextData => StepView::Finished(text::text_result()),
        FileKind::Archive | FileKind::Folder => StepView::Finished(archive::archive_result(job.output_ext@)),
        FileKind::Other => StepView::Finished(
            Err(ErrorView::Unsupported(input_ext(job.input@), job.output_ext@)),
        ),
    }
}

/// What `dispatch` decided.
#[derive(Debug)]
pub struct Dispatched {
    pub step: DispatchStep,
    /// The lossy-to-lossy warning applies (and is switched on).
    pub warn_lossy: bool,
}

/// Route one job to the right engine. For a conversion this resolves the
/// collision-safe output path (honouring the configured output location),
/// records it in the job, and checks the lossy-to-lossy warning.
pub fn dispatch<F: Fn(&str) -> bool>(
    job: &mut Job,
    settings: &Settings,
    input_is_dir: bool,
    is_taken: &F,
    now_secs: u64,
) -> (r: Dispatched)
    requires
        forall|s: &str| is_taken.requires((s,)),
    ensures
        final(job).input == old(job).input,
        final(job).operation == old(job).operation,
        final(job).output_ext == old(job).output_ext,
        old(job).operation == Operation::Extract ==> {
            &&& final(job).output == old(job).output
            &&& !r.warn_lossy
            &&& r.step@ == StepView::Finished(archive::extract_result(input_ext(old(job).input@)))
        },
        old(job).operation == Operation::Archive ==> {
            &&& final(job).output == old(job).output
            &&& !r.warn_lossy
            &&& r.step@ == StepView::Finished(archive::archive_result(old(job).output_ext@))
        },
        old(job).operation == Operation::Convert ==> {
            let kind = kind_of_path(old(job).input@, input_is_dir);
            &&& r.warn_lossy == (settings.warn_lossy_to_lossy && lossy_to_lossy(
                input_ext(old(job).input@),
                old(job).output_ext@,
                kind,
            ))
            &&& final(job).output matches Some(out) && unique_result(
                *is_taken,
                output_dir(old(job).input@, settings.output),
                output_stem(old(job).input@),
                trim_leading_dots(old(job).output_ext@),
                now_secs as nat,
                out@,
            ) && r.step@ == convert_step(*old(job), kind, *settings, out@)
        },
{
    let kind = classify_path(job.input.as_str(), input_is_dir);
    let in_ext = {
        let p = chars_of(job.input.as_str());
        let e = match path_extension(&p) {
            Some(e) => e,
            None => Vec::new(),
        };
        let mut lowered: Vec<char> = Vec::new();
        let mut i: usize = 0;
        while i < e.len()
            invariant
                i <= e@.len(),
                lowered@ == lower(e@).subrange(0, i as int),
            decreases e@.len() - i,
        {
            lowered.push(crate::text::ascii_lower_char(e[i]));
            i = i + 1;
        }
        assert(lowered@ =~= lower(e@));
        string_of(&lowered)
    };
    assert(in_ext@ == input_ext(job.input@));
    match job.operation {
        Operation::Extract => {
            return Dispatched { step: DispatchStep::Finished(archive::extract(job, in_ext.as_str())), warn_lossy: false };
        },
        Operation::Archive => {
            return Dispatched { step: DispatchStep::Finished(archive::convert_or_extract(job)), warn_lossy: false };
        },
        Operation::Convert => {},
    }
    let warn_lossy = settings.warn_lossy_to_lossy && should_warn_lossy(
        in_ext.as_str(),
        job.output_ext.as_str(),
        kind,
    );
    let out = output_path_for(
        job.input.as_str(),
        job.output_ext.as_str(),
        &settings.output,
        is_taken,
        now_secs,
    );
    let ghost before = *job;
    job.output = Some(out.clone());
    let step = match kind {
        FileKind::Image => image::convert(job, settings),
        FileKind::Video | FileKind::Audio => DispatchStep::Media,
        FileKind::TextData => DispatchStep::Finished(text::convert(job)),
        FileKind::Archive | FileKind::Folder => DispatchStep::Finished(archive::convert_or_extract(job)),
        FileKind::Other => DispatchStep::Finished(
            Err(ConvertError::Unsupported(in_ext, job.output_ext.clone())),
        ),
    };
    Dispatched { step, warn_lossy }
}

/// Originals are never overwritten. For a conversion, `dispatch` records as
/// the job's output a path the probe reported free, and, when the probe gives
/// one answer per path, reports the input as present and some numbered name
/// was free, that path is not the input. (Nothing here writes anywhere: the
/// library only asks the probe, so the input is left as it was.)
pub proof fn law_output_is_never_the_input<F: Fn(&str) -> bool>(
    probe: F,
    job: Job,
    settings: Settings,
    secs: nat,
    output: Seq<char>,
)
    requires
        job.operation == Operation::Convert,
        consistent(probe),
        unique_result(
            probe,
            output_dir(job.input@, settings.output),
            output_stem(job.input@),
            trim_leading_dots(job.output_ext@),
            secs,
            output,
        ),
        answered(probe, job.input@, true),
        exists|k: nat|
            k < MAX_ATTEMPTS && answered(
                probe,
                #[trigger] candidate(
                    output_dir(job.input@, settings.output),
                    output_stem(job.input@),
                    trim_leading_dots(job.output_ext@),
                    k,
                ),
                false,
            ),
    ensures
        output != job.input@,
        answered(probe, output, false),
{
    let dir = output_dir(job.input@, settings.output);
    let stem = output_stem(job.input@);
    let ext = trim_leading_dots(job.output_ext@);
    law_never_a_taken_path(probe, dir, stem, ext, secs, output, job.input@);
    let k = choose|k: nat| k < MAX_ATTEMPTS && answered(probe, #[trigger] candidate(dir, stem, ext, k), false);
    if forall|j: nat| j < MAX_ATTEMPTS ==> answered(probe, #[trigger] candidate(dir, stem, ext, j), true) {
        assert(answered(probe, candidate(dir, stem, ext, k), true));
        let a = choose|s: &str| s@ == candidate(dir, stem, ext, k) && #[trigger] call_ensures(probe, (s,), true);
        let b = choose|s: &str| s@ == candidate(dir, stem, ext, k) && #[trigger] call_ensures(probe, (s,), false);
        assert(false);
    }
}

} // verus!
