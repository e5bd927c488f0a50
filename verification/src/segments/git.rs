use vstd::prelude::*;

verus! {

use crate::segment::SegmentData;
use crate::segment::SegmentId;
use crate::segment::assoc_find;
use crate::segment::lemma_metadata_keys_distinct;
use crate::statusline::GitPreviewData;
use crate::statusline::StatusLineContext;
use crate::text::dec_str;
use crate::text::dec_u128;
use vstd::string::StrSliceExecFns;
use vstd::string::StringExecFns;

/// Shows the version-control branch with a status symbol and the
/// ahead/behind counts.
pub struct GitSegment;

/// The working tree's state: untouched, with local changes, or with merge
/// conflicts.
#[derive(Debug, Clone, Copy, PartialEq, Eq, Structural)]
pub enum GitStatus {
    Clean,
    Dirty,
    Conflicts,
}

/// What the version-control collector found: branch name, working-tree
/// state, and commits ahead of and behind the upstream.
#[derive(Debug)]
pub struct GitInfo {
    pub branch: String,
    pub status: GitStatus,
    pub ahead: u32,
    pub behind: u32,
}

pub open spec fn spec_is_ascii_ws(c: char) -> bool {
    c == ' ' || c == '\t' || c == '\n' || c == '\r' || c == '\u{b}' || c == '\u{c}'
}

pub open spec fn spec_all_ws(t: Seq<char>) -> bool {
    forall|i: int| 0 <= i < t.len() ==> spec_is_ascii_ws(#[trigger] t[i])
}

/// Whether the character appears twice in a row somewhere in the text.
pub open spec fn spec_has_double(t: Seq<char>, c: char) -> bool {
    exists|i: int| #![trigger t[i]] 0 <= i && i + 1 < t.len() && t[i] == c && t[i + 1] == c
}

/// What a porcelain status listing says of the working tree: blank means
/// untouched; a doubled `U`, `A` or `D` status pair means a merge conflict;
/// anything else means local changes. The blank test covers ASCII
/// whitespace.
pub open spec fn spec_git_status_of(t: Seq<char>) -> GitStatus {
    if spec_all_ws(t) {
        GitStatus::Clean
    } else if spec_has_double(t, 'U') || spec_has_double(t, 'A') || spec_has_double(t, 'D') {
        GitStatus::Conflicts
    } else {
        GitStatus::Dirty
    }
}

proof fn lemma_has_double_step(t: Seq<char>, k: int, c: char)
    requires
        0 <= k < t.len(),
    ensures
        spec_has_double(t.take(k + 1), c) == (spec_has_double(t.take(k), c) || (k >= 1 && t[k - 1]
            == c && t[k] == c)),
{
    if spec_has_double(t.take(k + 1), c) {
        let i = choose|i: int|
            #![trigger t.take(k + 1)[i]]
            0 <= i && i + 1 < t.take(k + 1).len() && t.take(k + 1)[i] == c && t.take(k + 1)[i + 1]
                == c;
        if i + 1 < k {
            assert(t.take(k)[i] == c && t.take(k)[i + 1] == c);
        } else {
            assert(t[k - 1] == c && t[k] == c);
        }
    }
    if spec_has_double(t.take(k), c) {
        let i = choose|i: int|
            #![trigger t.take(k)[i]]
            0 <= i && i + 1 < t.take(k).len() && t.take(k)[i] == c && t.take(k)[i + 1] == c;
        assert(t.take(k + 1)[i] == c && t.take(k + 1)[i + 1] == c);
    }
    if k >= 1 && t[k - 1] == c && t[k] == c {
        assert(t.take(k + 1)[k - 1] == c && t.take(k + 1)[k] == c);
    }
}

/// Reads the working-tree state out of a porcelain status listing.
pub fn parse_git_status(text: &str) -> (s: GitStatus)
    ensures
        s == spec_git_status_of(text@),
{
    let n = text.unicode_len();
    let mut all_ws = true;
    let mut uu = false;
    let mut aa = false;
    let mut dd = false;
    let mut i: usize = 0;
    proof {
        assert(text@.take(0) =~= Seq::<char>::empty());
    }
    while i < n
        invariant
            n == text@.len(),
            0 <= i <= n,
            all_ws == spec_all_ws(text@.take(i as int)),
            uu == spec_has_double(text@.take(i as int), 'U'),
            aa == spec_has_double(text@.take(i as int), 'A'),
            dd == spec_has_double(text@.take(i as int), 'D'),
        decreases n - i,
    {
        let c = text.get_char(i);
        let ghost pre = text@.take(i as int);
        if !(c == ' ' || c == '\t' || c == '\n' || c == '\r' || c == '\u{b}' || c == '\u{c}') {
            all_ws = false;
        }
        if i > 0 {
            let p = text.get_char(i - 1);
            if p == 'U' && c == 'U' {
                uu = true;
            }
            if p == 'A' && c == 'A' {
                aa = true;
            }
            if p == 'D' && c == 'D' {
                dd = true;
            }
        }
        proof {
            let t = text@;
            let k = i as int;
            assert(t.take(k + 1).drop_last() =~= pre);
            assert(t.take(k + 1).last() == t[k]);
            lemma_has_double_step(t, k, 'U');
            lemma_has_double_step(t, k, 'A');
            lemma_has_double_step(t, k, 'D');
            if all_ws {
                assert forall|j: int| 0 <= j < k + 1 implies spec_is_ascii_ws(
                    #[trigger] t.take(k + 1)[j],
                ) by {
                    if j < k {
                        assert(pre[j] == t.take(k + 1)[j]);
                    }
                }
            } else {
                if spec_all_ws(pre) {
                    assert(!spec_is_ascii_ws(t[k]));
                    assert(t.take(k + 1)[k] == t[k]);
                } else {
                    let j = choose|j: int| 0 <= j < pre.len() && !spec_is_ascii_ws(pre[j]);
                    assert(t.take(k + 1)[j] == pre[j]);
                }
            }
        }
        i = i + 1;
    }
    proof {
        assert(text@.take(n as int) =~= text@);
    }
    if all_ws {
        GitStatus::Clean
    } else if uu || aa || dd {
        GitStatus::Conflicts
    } else {
        GitStatus::Dirty
    }
}

/// The symbol shown for a working-tree state.
pub open spec fn spec_status_symbol(s: GitStatus) -> Seq<char> {
    match s {
        GitStatus::Clean => "✓"@,
        GitStatus::Dirty => "●"@,
        GitStatus::Conflicts => "⚠"@,
    }
}

/// The name of a working-tree state, as the metadata records it.
pub open spec fn spec_status_name(s: GitStatus) -> Seq<char> {
    match s {
        GitStatus::Clean => "Clean"@,
        GitStatus::Dirty => "Dirty"@,
        GitStatus::Conflicts => "Conflicts"@,
    }
}

pub fn status_symbol(s: GitStatus) -> (r: &'static str)
    ensures
        r@ == spec_status_symbol(s),
{
    match s {
        GitStatus::Clean => "✓",
        GitStatus::Dirty => "●",
        GitStatus::Conflicts => "⚠",
    }
}

fn status_name(s: GitStatus) -> (r: &'static str)
    ensures
        r@ == spec_status_name(s),
{
    match s {
        GitStatus::Clean => "Clean",
        GitStatus::Dirty => "Dirty",
        GitStatus::Conflicts => "Conflicts",
    }
}

/// The secondary text: the status symbol, then the ahead and behind counts
/// where they are not zero, separated by spaces.
pub open spec fn spec_git_secondary(status: Seq<char>, ahead: u32, behind: u32) -> Seq<char> {
    status + (if ahead > 0 {
        " ↑"@ + dec_str(ahead as nat)
    } else {
        Seq::<char>::empty()
    }) + (if behind > 0 {
        " ↓"@ + dec_str(behind as nat)
    } else {
        Seq::<char>::empty()
    })
}

fn git_secondary(status: &str, ahead: u32, behind: u32) -> (r: String)
    ensures
        r@ == spec_git_secondary(status@, ahead, behind),
{
    let mut s = status.to_owned();
    if ahead > 0 {
        s.append(" ↑");
        s.append(dec_u128(ahead as u128).as_str());
    }
    if behind > 0 {
        s.append(" ↓");
        s.append(dec_u128(behind as u128).as_str());
    }
    proof {
        assert(s@ =~= spec_git_secondary(status@, ahead, behind));
    }
    s
}

/// The data the segment produces from a version-control snapshot.
pub open spec fn spec_git_preview_segment_data(p: GitPreviewData, d: SegmentData) -> bool {
    &&& d.primary@ == p.branch@
    &&& d.secondary@ == spec_git_secondary(p.status@, p.ahead, p.behind)
    &&& d.wf()
    &&& d.metadata@.len() == 4
    &&& assoc_find(d.metadata@, "branch"@) == Some(p.branch@)
    &&& assoc_find(d.metadata@, "status"@) == Some(p.status@)
    &&& assoc_find(d.metadata@, "ahead"@) == Some(dec_str(p.ahead as nat))
    &&& assoc_find(d.metadata@, "behind"@) == Some(dec_str(p.behind as nat))
    &&& assoc_find(d.metadata@, "dynamic_icon"@) is None
}

impl GitSegment {
    /// Produces the branch display from the context's version-control
    /// snapshot; without one, or with a blank one, there is no data.
    pub fn collect(&self, ctx: &StatusLineContext) -> (r: Option<SegmentData>)
        ensures
            (r is Some) == (ctx.git_preview matches Some(p) && !(p.branch@.len() == 0
                && p.status@.len() == 0)),
            r matches Some(d) ==> spec_git_preview_segment_data(ctx.git_preview->0, d),
    {
        proof {
            lemma_metadata_keys_distinct();
        }
        match &ctx.git_preview {
            None => None,
            Some(preview) => {
                if preview.branch.as_str().is_empty() && preview.status.as_str().is_empty() {
                    return None;
                }
                let secondary = git_secondary(
                    preview.status.as_str(),
                    preview.ahead,
                    preview.behind,
                );
                let ahead_str = dec_u128(preview.ahead as u128);
                let behind_str = dec_u128(preview.behind as u128);
                let d = SegmentData::new(preview.branch.as_str()).with_secondary(
                    secondary.as_str(),
                ).with_metadata("branch", preview.branch.as_str()).with_metadata(
                    "status",
                    preview.status.as_str(),
                ).with_metadata("ahead", ahead_str.as_str()).with_metadata(
                    "behind",
                    behind_str.as_str(),
                );
                Some(d)
            },
        }
    }

    pub fn id(&self) -> (r: SegmentId)
        ensures
            r == SegmentId::Git,
    {
        SegmentId::Git
    }

    /// The segment data for a collected `GitInfo`, with the state symbol in
    /// the secondary text and the state's name in the metadata.
    pub fn data_from_info(&self, info: &GitInfo) -> (d: SegmentData)
        ensures
            d.primary@ == info.branch@,
            d.secondary@ == spec_git_secondary(
                spec_status_symbol(info.status),
                info.ahead,
                info.behind,
            ),
            d.wf(),
            d.metadata@.len() == 4,
            assoc_find(d.metadata@, "branch"@) == Some(info.branch@),
            assoc_find(d.metadata@, "status"@) == Some(spec_status_name(info.status)),
            assoc_find(d.metadata@, "ahead"@) == Some(dec_str(info.ahead as nat)),
            assoc_find(d.metadata@, "behind"@) == Some(dec_str(info.behind as nat)),
            assoc_find(d.metadata@, "dynamic_icon"@) is None,
    {
        proof {
            lemma_metadata_keys_distinct();
        }
        let symbol = status_symbol(info.status);
        let secondary = git_secondary(symbol, info.ahead, info.behind);
        let ahead_str = dec_u128(info.ahead as u128);
        let behind_str = dec_u128(info.behind as u128);
        SegmentData::new(info.branch.as_str()).with_secondary(secondary.as_str()).with_metadata(
            "branch",
            info.branch.as_str(),
        ).with_metadata("status", status_name(info.status)).with_metadata(
            "ahead",
            ahead_str.as_str(),
        ).with_metadata("behind", behind_str.as_str())
    }

    /// The preview form of a collected `GitInfo`: the same fields, with the
    /// state turned into its symbol.
    pub fn preview_from_info(&self, info: &GitInfo) -> (p: GitPreviewData)
        ensures
            p.branch == info.branch,
            p.status@ == spec_status_symbol(info.status),
            p.ahead == info.ahead,
            p.behind == info.behind,
    {
        GitPreviewData {
            branch: info.branch.clone(),
            status: status_symbol(info.status).to_owned(),
            ahead: info.ahead,
            behind: info.behind,
        }
    }
}

} // verus!
