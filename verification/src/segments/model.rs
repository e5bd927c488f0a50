use vstd::prelude::*;

verus! {

use crate::segment::SegmentData;
use crate::segment::SegmentId;
use crate::segment::assoc_find;
use crate::statusline::StatusLineContext;

/// Shows the active model's name.
pub struct ModelSegment;

/// The data the model segment produces: the model name, nothing else.
pub open spec fn spec_model_data(ctx: StatusLineContext, d: SegmentData) -> bool {
    &&& d.primary@ == ctx.model_name@
    &&& d.secondary@.len() == 0
    &&& d.metadata@.len() == 0
    &&& d.wf()
    &&& assoc_find(d.metadata@, "dynamic_icon"@) is None
}

impl ModelSegment {
    /// Produces the model name; an empty name yields no data.
    pub fn collect(&self, ctx: &StatusLineContext) -> (r: Option<SegmentData>)
        ensures
            (r is Some) == (ctx.model_name@.len() > 0),
            r matches Some(d) ==> spec_model_data(*ctx, d),
    {
        if ctx.model_name.as_str().is_empty() {
            None
        } else {
            Some(SegmentData::new(ctx.model_name.as_str()))
        }
    }

    pub fn id(&self) -> (r: SegmentId)
        ensures
            r == SegmentId::Model,
    {
        SegmentId::Model
    }
}

} // verus!
