use vstd::prelude::*;

verus! {

use crate::segment::SegmentData;
use crate::segment::SegmentId;
use crate::segment::assoc_find;
use crate::segment::lemma_metadata_keys_distinct;
use crate::statusline::StatusLineContext;
use crate::text::dec_digit;
use crate::text::dec_i128;
use crate::text::dec_str;
use crate::text::dec_str_signed;
use crate::text::dec_u128;
use crate::text::digit_char;
use crate::text::push_char;
use vstd::arithmetic::div_mod::lemma_fundamental_div_mod;
use vstd::arithmetic::div_mod::lemma_mod_pos_bound;
use vstd::arithmetic::div_mod::lemma_fundamental_div_mod_converse;
use vstd::string::StringExecFns;

/// Shows how much of the context window is used: a percentage and the used
/// token count, with placeholders when the numbers are missing.
pub struct ContextSegment;

/// Token counts shown in buckets: plain below one thousand, one-decimal
/// thousands with a `k` up to a million, one-decimal millions with an `M`
/// above. A half decimal rounds up -- a deliberate fixed rule, where
/// formatting through binary floating point would round such halves by
/// their nearest representable value.
pub open spec fn spec_format_tokens(t: int) -> Seq<char> {
    if t >= 1_000_000 {
        let tenths = (t + 50_000) / 100_000;
        dec_str((tenths / 10) as nat).push('.').push(dec_digit((tenths % 10) as nat)).push('M')
    } else if t >= 1_000 {
        let tenths = (t + 50) / 100;
        dec_str((tenths / 10) as nat).push('.').push(dec_digit((tenths % 10) as nat)).push('k')
    } else {
        dec_str_signed(t)
    }
}

/// Formats a token count per the bucket rule.
pub fn format_tokens(tokens: i64) -> (r: String)
    ensures
        r@ == spec_format_tokens(tokens as int),
{
    if tokens >= 1_000_000 {
        let tenths: u128 = ((tokens as u128) + 50_000) / 100_000;
        let mut s = dec_u128(tenths / 10);
        push_char(&mut s, '.');
        push_char(&mut s, digit_char((tenths % 10) as u8));
        push_char(&mut s, 'M');
        s
    } else if tokens >= 1_000 {
        let tenths: u128 = ((tokens as u128) + 50) / 100;
        let mut s = dec_u128(tenths / 10);
        push_char(&mut s, '.');
        push_char(&mut s, digit_char((tenths % 10) as u8));
        push_char(&mut s, 'k');
        s
    } else {
        dec_i128(tokens as i128)
    }
}

/// The used share of the window in whole percent, rounded down.
pub open spec fn spec_context_percent(used: int, window: int) -> int {
    (used * 100) / window
}

/// Whole percent of the window used, rounded toward minus infinity.
pub fn context_percent(used: i64, window: i64) -> (r: i128)
    requires
        window > 0,
    ensures
        r == spec_context_percent(used as int, window as int),
{
    let w = window as u128;
    if used >= 0 {
        let a: u128 = (used as u128) * 100;
        let q = a / w;
        proof {
            assert(q <= a);
            assert(spec_context_percent(used as int, window as int) == q as int);
        }
        q as i128
    } else {
        let a: u128 = ((-(used + 1)) as u128 + 1) * 100;
        let q = a / w;
        let rm = a % w;
        proof {
            assert(q <= a);
            assert(a == (-(used as int) * 100));
            lemma_fundamental_div_mod(a as int, w as int);
            lemma_mod_pos_bound(a as int, w as int);
            assert(a as int == (w as int) * (q as int) + (rm as int));
            if rm == 0 {
                assert(used as int * 100 == (-(q as int)) * (w as int) + 0)
                    by (nonlinear_arith)
                    requires
                        a as int == (w as int) * (q as int) + (rm as int),
                        rm == 0,
                        a as int == -(used as int) * 100,
                ;
                lemma_fundamental_div_mod_converse(
                    used as int * 100,
                    w as int,
                    -(q as int),
                    0,
                );
            } else {
                assert(used as int * 100 == (-(q as int) - 1) * (w as int) + (w as int
                    - rm as int)) by (nonlinear_arith)
                    requires
                        a as int == (w as int) * (q as int) + (rm as int),
                        a as int == -(used as int) * 100,
                ;
                lemma_fundamental_div_mod_converse(
                    used as int * 100,
                    w as int,
                    -(q as int) - 1,
                    w as int - rm as int,
                );
            }
        }
        if rm == 0 {
            -(q as i128)
        } else {
            -(q as i128) - 1
        }
    }
}

/// The primary text of the context segment: percent and formatted token
/// count when both numbers are at hand, the token count alone without a
/// window size, a placeholder without a token count.
pub open spec fn spec_context_primary(used: Option<i64>, window: Option<i64>) -> Seq<char> {
    if used is Some && window is Some && window->0 > 0 {
        dec_str_signed(spec_context_percent(used->0 as int, window->0 as int)) + "% · "@
            + spec_format_tokens(used->0 as int) + " tokens"@
    } else if used is Some {
        spec_format_tokens(used->0 as int) + " tokens"@
    } else {
        "- · - tokens"@
    }
}

/// The data the context segment produces for a context.
pub open spec fn spec_context_data(ctx: StatusLineContext, d: SegmentData) -> bool {
    let used = ctx.context_used_tokens;
    let window = ctx.context_window_size;
    &&& d.primary@ == spec_context_primary(used, window)
    &&& d.secondary@.len() == 0
    &&& d.wf()
    &&& assoc_find(d.metadata@, "dynamic_icon"@) is None
    &&& if used is Some && window is Some && window->0 > 0 {
        let p = spec_context_percent(used->0 as int, window->0 as int);
        &&& d.metadata@.len() == 3
        &&& assoc_find(d.metadata@, "percent"@) == Some(dec_str_signed(p))
        &&& assoc_find(d.metadata@, "tokens"@) == Some(dec_str_signed(used->0 as int))
        &&& assoc_find(d.metadata@, "type"@) == Some("full"@)
    } else if used is Some {
        &&& d.metadata@.len() == 2
        &&& assoc_find(d.metadata@, "tokens"@) == Some(dec_str_signed(used->0 as int))
        &&& assoc_find(d.metadata@, "type"@) == Some("tokens"@)
    } else {
        &&& d.metadata@.len() == 3
        &&& assoc_find(d.metadata@, "percent"@) == Some("-"@)
        &&& assoc_find(d.metadata@, "tokens"@) == Some("-"@)
        &&& assoc_find(d.metadata@, "type"@) == Some("placeholder"@)
    }
}

impl ContextSegment {
    /// Always produces data: real numbers when they are at hand,
    /// placeholders otherwise.
    pub fn collect(&self, ctx: &StatusLineContext) -> (r: Option<SegmentData>)
        ensures
            r matches Some(d) && spec_context_data(*ctx, d),
    {
        proof {
            lemma_metadata_keys_distinct();
        }
        match (ctx.context_used_tokens, ctx.context_window_size) {
            (Some(used), Some(window)) if window > 0 => {
                let percent = context_percent(used, window);
                let percent_str = dec_i128(percent);
                let tokens_str = dec_i128(used as i128);
                let mut display = dec_i128(percent);
                display.append("% · ");
                display.append(format_tokens(used).as_str());
                display.append(" tokens");
                proof {
                    assert(display@ =~= spec_context_primary(
                        ctx.context_used_tokens,
                        ctx.context_window_size,
                    ));
                }
                let d = SegmentData::new(display.as_str()).with_metadata(
                    "percent",
                    percent_str.as_str(),
                ).with_metadata("tokens", tokens_str.as_str()).with_metadata("type", "full");
                Some(d)
            },
            (used_opt, _) => {
                match used_opt {
                    Some(used) => {
                        let tokens_str = dec_i128(used as i128);
                        let mut display = format_tokens(used);
                        display.append(" tokens");
                        proof {
                            assert(display@ =~= spec_context_primary(
                                ctx.context_used_tokens,
                                ctx.context_window_size,
                            ));
                        }
                        let d = SegmentData::new(display.as_str()).with_metadata(
                            "tokens",
                            tokens_str.as_str(),
                        ).with_metadata("type", "tokens");
                        Some(d)
                    },
                    None => {
                        let d = SegmentData::new("- · - tokens").with_metadata(
                            "percent",
                            "-",
                        ).with_metadata("tokens", "-").with_metadata("type", "placeholder");
                        Some(d)
                    },
                }
            },
        }
    }

    pub fn id(&self) -> (r: SegmentId)
        ensures
            r == SegmentId::Context,
    {
        SegmentId::Context
    }
}

} // verus!
