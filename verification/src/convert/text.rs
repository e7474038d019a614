//! Text and data engine: structured to structured, plus a simple Markdown to
//! PDF. Not built yet: it reports so.
use vstd::prelude::*;
use super::{ConvertError, ErrorView, Job};

verus! {

pub open spec fn text_result() -> Result<Seq<char>, ErrorView> {
    Err(ErrorView::NotImplemented("text engine (serde)"@))
}

pub fn convert(job: &Job) -> (r: Result<String, ConvertError>)
    ensures
        super::result_view(r) == text_result(),
{
    Err(ConvertError::NotImplemented("text engine (serde)".to_owned()))
}

} // verus!
