use vstd::prelude::*;

verus! {

use crate::segment::SegmentData;
use crate::segment::SegmentId;
use crate::segment::assoc_find;
use crate::segment::lemma_metadata_keys_distinct;
use crate::statusline::StatusLineContext;
use crate::text::dec_digit;
use crate::text::dec_str;
use crate::text::dec_u128;
use crate::text::digit_char;
use crate::text::push_char;
use vstd::string::StringExecFns;

/// Shows the rate-limit utilization: a whole percentage, the reset time
/// when one is known, and a gauge glyph picked from the utilization.
pub struct UsageSegment;

/// The gauge glyph for a utilization percentage: one of eight circle-slice
/// glyphs, one per utilization bucket, the full circle from 88% up.
pub open spec fn spec_circle_icon(percent: int) -> Seq<char> {
    if percent <= 12 {
        "\u{f0a9e}"@
    } else if percent <= 25 {
        "\u{f0a9f}"@
    } else if percent <= 37 {
        "\u{f0aa0}"@
    } else if percent <= 50 {
        "\u{f0aa1}"@
    } else if percent <= 62 {
        "\u{f0aa2}"@
    } else if percent <= 75 {
        "\u{f0aa3}"@
    } else if percent <= 87 {
        "\u{f0aa4}"@
    } else {
        "\u{f0aa5}"@
    }
}

/// The gauge glyph for a whole utilization percentage.
pub fn get_circle_icon(percent: u32) -> (r: String)
    ensures
        r@ == spec_circle_icon(percent as int),
{
    if percent <= 12 {
        "\u{f0a9e}".to_owned()
    } else if percent <= 25 {
        "\u{f0a9f}".to_owned()
    } else if percent <= 37 {
        "\u{f0aa0}".to_owned()
    } else if percent <= 50 {
        "\u{f0aa1}".to_owned()
    } else if percent <= 62 {
        "\u{f0aa2}".to_owned()
    } else if percent <= 75 {
        "\u{f0aa3}".to_owned()
    } else if percent <= 87 {
        "\u{f0aa4}".to_owned()
    } else {
        "\u{f0aa5}".to_owned()
    }
}

/// A rate-limit value in tenths of a percent, written with one decimal.
pub open spec fn spec_tenths_display(tenths: u32) -> Seq<char> {
    dec_str((tenths / 10) as nat).push('.').push(dec_digit((tenths % 10) as nat))
}

/// The data the usage segment produces for a rate-limit value: the primary
/// text is the whole percentage with a half tenth rounded up -- the same
/// deliberate half-up rule the token formatter uses.
pub open spec fn spec_usage_data(ctx: StatusLineContext, d: SegmentData) -> bool {
    let tenths = ctx.rate_limit_percent_tenths->0;
    &&& d.primary@ == dec_str(((tenths + 5) / 10) as nat).push('%')
    &&& d.wf()
    &&& assoc_find(d.metadata@, "percent"@) == Some(spec_tenths_display(tenths))
    &&& assoc_find(d.metadata@, "dynamic_icon"@) == Some(spec_circle_icon(tenths as int / 10))
    &&& match ctx.rate_limit_resets_at {
        Some(at) => {
            &&& d.secondary@ == "· "@ + at@
            &&& assoc_find(d.metadata@, "resets_at"@) == Some(at@)
            &&& d.metadata@.len() == 3
        },
        None => {
            &&& d.secondary@.len() == 0
            &&& assoc_find(d.metadata@, "resets_at"@) is None
            &&& d.metadata@.len() == 2
        },
    }
}

impl UsageSegment {
    /// Produces the utilization display; no rate-limit value yields no
    /// data.
    pub fn collect(&self, ctx: &StatusLineContext) -> (r: Option<SegmentData>)
        ensures
            (r is Some) == (ctx.rate_limit_percent_tenths is Some),
            r matches Some(d) ==> spec_usage_data(*ctx, d),
    {
        proof {
            lemma_metadata_keys_distinct();
        }
        let tenths = match ctx.rate_limit_percent_tenths {
            Some(t) => t,
            None => {
                return None;
            },
        };
        let mut display = dec_u128(((tenths as u128) + 5) / 10);
        push_char(&mut display, '%');
        let mut percent_str = dec_u128((tenths as u128) / 10);
        push_char(&mut percent_str, '.');
        push_char(&mut percent_str, digit_char((tenths % 10) as u8));
        let dynamic_icon = get_circle_icon(tenths / 10);
        let mut data = SegmentData::new(display.as_str()).with_metadata(
            "percent",
            percent_str.as_str(),
        ).with_metadata("dynamic_icon", dynamic_icon.as_str());
        match &ctx.rate_limit_resets_at {
            Some(resets_at) => {
                let mut secondary = "· ".to_owned();
                secondary.append(resets_at.as_str());
                data = data.with_secondary(secondary.as_str()).with_metadata(
                    "resets_at",
                    resets_at.as_str(),
                );
                Some(data)
            },
            None => Some(data),
        }
    }

    pub fn id(&self) -> (r: SegmentId)
        ensures
            r == SegmentId::Usage,
    {
        SegmentId::Usage
    }
}

} // verus!
