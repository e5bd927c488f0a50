use vstd::prelude::*;

verus! {

use crate::segment::SegmentData;
use crate::segment::SegmentId;
use crate::segment::assoc_find;
use crate::segment::lemma_metadata_keys_distinct;
use crate::statusline::StatusLineContext;
use vstd::string::StrSliceExecFns;
use vstd::string::StringExecFns;

/// Shows the name of the working directory.
pub struct DirectorySegment;

/// The path without its trailing slashes.
pub open spec fn spec_strip_trailing_slashes(p: Seq<char>) -> Seq<char>
    decreases p.len(),
{
    if p.len() > 0 && p.last() == '/' {
        spec_strip_trailing_slashes(p.drop_last())
    } else {
        p
    }
}

/// The characters after the last slash.
pub open spec fn spec_last_component(p: Seq<char>) -> Seq<char>
    decreases p.len(),
{
    if p.len() == 0 || p.last() == '/' {
        Seq::empty()
    } else {
        spec_last_component(p.drop_last()).push(p.last())
    }
}

/// The name the directory segment shows for a path: the last path
/// component, ignoring trailing slashes; a slash for the filesystem root;
/// nothing for an empty path.
pub open spec fn spec_dir_name(p: Seq<char>) -> Seq<char> {
    if p.len() == 0 {
        Seq::empty()
    } else if spec_strip_trailing_slashes(p).len() == 0 {
        "/"@
    } else {
        spec_last_component(spec_strip_trailing_slashes(p))
    }
}

/// The directory name of a path.
pub fn extract_directory_name(path: &str) -> (r: String)
    ensures
        r@ == spec_dir_name(path@),
{
    let n = path.unicode_len();
    if n == 0 {
        let r = String::new();
        proof {
            assert(r@ =~= spec_dir_name(path@));
        }
        return r;
    }
    let mut end: usize = n;
    proof {
        assert(path@.take(n as int) =~= path@);
    }
    while end > 0 && path.get_char(end - 1) == '/'
        invariant
            n == path@.len(),
            0 <= end <= n,
            spec_strip_trailing_slashes(path@) == spec_strip_trailing_slashes(
                path@.take(end as int),
            ),
        decreases end,
    {
        proof {
            assert(path@.take(end as int).last() == path@[end - 1]);
            assert(path@.take(end as int).drop_last() =~= path@.take(end - 1));
        }
        end = end - 1;
    }
    proof {
        assert(path@.take(n as int) =~= path@);
        if end > 0 {
            assert(path@.take(end as int).last() != '/');
            assert(spec_strip_trailing_slashes(path@.take(end as int)) == path@.take(end as int));
        } else {
            assert(path@.take(0) =~= Seq::<char>::empty());
        }
    }
    if end == 0 {
        let r = "/".to_owned();
        return r;
    }
    let mut start: usize = end;
    while start > 0 && path.get_char(start - 1) != '/'
        invariant
            n == path@.len(),
            0 <= start <= end <= n,
            spec_last_component(path@.take(end as int)) == spec_last_component(
                path@.take(start as int),
            ) + path@.subrange(start as int, end as int),
            forall|j: int| start <= j < end ==> path@[j] != '/',
        decreases start,
    {
        proof {
            assert(path@.take(start as int).last() == path@[start - 1]);
            assert(path@.take(start as int).drop_last() =~= path@.take(start - 1));
            assert(spec_last_component(path@.take(start as int)) == spec_last_component(
                path@.take(start - 1),
            ).push(path@[start - 1]));
            assert(spec_last_component(path@.take(start - 1)).push(path@[start - 1]) + path@
                .subrange(start as int, end as int) =~= spec_last_component(
                path@.take(start - 1),
            ) + path@.subrange(start - 1, end as int));
        }
        start = start - 1;
    }
    proof {
        if start > 0 {
            assert(path@.take(start as int).last() == '/');
        } else {
            assert(path@.take(0) =~= Seq::<char>::empty());
        }
        assert(spec_last_component(path@.take(start as int)) =~= Seq::<char>::empty());
        assert(spec_last_component(path@.take(end as int)) =~= path@.subrange(
            start as int,
            end as int,
        ));
    }
    let r = path.substring_char(start, end).to_owned();
    r
}

/// The data the directory segment produces: the directory name, with the
/// full path in the metadata.
pub open spec fn spec_directory_data(ctx: StatusLineContext, d: SegmentData) -> bool {
    &&& d.primary@ == spec_dir_name(ctx.cwd@)
    &&& d.secondary@.len() == 0
    &&& d.wf()
    &&& d.metadata@.len() == 1
    &&& assoc_find(d.metadata@, "full_path"@) == Some(ctx.cwd@)
    &&& assoc_find(d.metadata@, "dynamic_icon"@) is None
}

impl DirectorySegment {
    /// Produces the directory name; a path without one yields no data.
    pub fn collect(&self, ctx: &StatusLineContext) -> (r: Option<SegmentData>)
        ensures
            (r is Some) == (spec_dir_name(ctx.cwd@).len() > 0),
            r matches Some(d) ==> spec_directory_data(*ctx, d),
    {
        proof {
            lemma_metadata_keys_distinct();
        }
        let dir_name = extract_directory_name(ctx.cwd.as_str());
        if dir_name.as_str().is_empty() {
            None
        } else {
            Some(
                SegmentData::new(dir_name.as_str()).with_metadata("full_path", ctx.cwd.as_str()),
            )
        }
    }

    pub fn id(&self) -> (r: SegmentId)
        ensures
            r == SegmentId::Directory,
    {
        SegmentId::Directory
    }
}

} // verus!
