//! Archive engine: create zip / tar / tar.gz / gzip from files and folders,
//! and extract the same set. Not built yet: it validates and reports so.
use vstd::prelude::*;
use super::{ConvertError, ErrorView, Job};
use crate::text::{chars_of, one_of, views};

verus! {

/// Archive formats the engine creates.
pub open spec fn create_target_list() -> Seq<Seq<char>> {
    seq!["zip"@, "tar"@, "tar.gz"@, "gzip"@]
}

/// Archive formats the engine creates.
pub fn create_targets() -> (r: &'static [&'static str])
    ensures
        views(r@) == create_target_list(),
{
    let r: &'static [&'static str] = &["zip", "tar", "tar.gz", "gzip"];
    assert(views(r@) =~= create_target_list());
    r
}

/// What packing into `ext` yields.
pub open spec fn archive_result(ext: Seq<char>) -> Result<Seq<char>, ErrorView> {
    if create_target_list().contains(ext) {
        Err(ErrorView::NotImplemented("archive engine (zip/tar/flate2)"@))
    } else {
        Err(ErrorView::Unsupported("archive"@, ext))
    }
}

/// What extracting an input with extension `input_ext` yields.
pub open spec fn extract_result(input_ext: Seq<char>) -> Result<Seq<char>, ErrorView> {
    if crate::file_kind::is_archive_ext(input_ext) {
        Err(ErrorView::NotImplemented("archive extraction (zip/tar/flate2)"@))
    } else {
        Err(ErrorView::Unsupported(input_ext, "extract"@))
    }
}

/// Pack the job's input into an archive of format `job.output_ext`.
pub fn convert_or_extract(job: &Job) -> (r: Result<String, ConvertError>)
    ensures
        super::result_view(r) == archive_result(job.output_ext@),
{
    let ext = chars_of(job.output_ext.as_str());
    if !one_of(&ext, create_targets()) {
        return Err(ConvertError::Unsupported("archive".to_owned(), job.output_ext.clone()));
    }
    Err(ConvertError::NotImplemented("archive engine (zip/tar/flate2)".to_owned()))
}

/// Unpack the job's input, whose lowercased extension is `input_ext`, next to
/// itself.
pub fn extract(job: &Job, input_ext: &str) -> (r: Result<String, ConvertError>)
    ensures
        super::result_view(r) == extract_result(input_ext@),
{
    if !crate::file_kind::FileKind::is_extractable_archive(input_ext) {
        return Err(ConvertError::Unsupported(input_ext.to_owned(), "extract".to_owned()));
    }
    Err(ConvertError::NotImplemented("archive extraction (zip/tar/flate2)".to_owned()))
}

} // verus!
