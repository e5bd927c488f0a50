use vstd::prelude::*;

verus! {

use crate::style::IconConfig;

/// The stock icon pair of the model segment.
pub fn model() -> (r: IconConfig)
    ensures
        r.plain@ == "🤖"@,
        r.nerd_font@ == "\u{e26d}"@,
{
    IconConfig::new("🤖", "\u{e26d}")
}

/// The stock icon pair of the directory segment.
pub fn directory() -> (r: IconConfig)
    ensures
        r.plain@ == "📁"@,
        r.nerd_font@ == "\u{f07c}"@,
{
    IconConfig::new("📁", "\u{f07c}")
}

/// The stock icon pair of the version-control segment.
pub fn git() -> (r: IconConfig)
    ensures
        r.plain@ == "🔀"@,
        r.nerd_font@ == "\u{e725}"@,
{
    IconConfig::new("🔀", "\u{e725}")
}

/// The stock icon pair of the context segment.
pub fn context() -> (r: IconConfig)
    ensures
        r.plain@ == "📊"@,
        r.nerd_font@ == "\u{f080}"@,
{
    IconConfig::new("📊", "\u{f080}")
}

/// The stock icon pair of the usage segment.
pub fn usage() -> (r: IconConfig)
    ensures
        r.plain@ == "⏱"@,
        r.nerd_font@ == "\u{f017}"@,
{
    IconConfig::new("⏱", "\u{f017}")
}

} // verus!
