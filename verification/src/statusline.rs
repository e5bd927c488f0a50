use vstd::prelude::*;

verus! {

use crate::config::CxLineConfig;
use crate::renderer::StatusLineRenderer;
use crate::segment::SegmentData;
use crate::segment::SegmentId;
use crate::segments::context::ContextSegment;
use crate::segments::context::spec_context_data;
use crate::segments::directory::DirectorySegment;
use crate::segments::directory::spec_dir_name;
use crate::segments::directory::spec_directory_data;
use crate::segments::git::GitSegment;
use crate::segments::git::spec_git_preview_segment_data;
use crate::segments::model::ModelSegment;
use crate::segments::model::spec_model_data;
use crate::segments::usage::UsageSegment;
use crate::segments::usage::spec_usage_data;
use vstd::string::StringExecFns;

/// A snapshot of version-control state, collected outside the render path
/// and handed in: branch name, status symbol, and how many commits the
/// branch is ahead of and behind its upstream.
#[derive(Debug, PartialEq, Eq)]
pub struct GitPreviewData {
    pub branch: String,
    pub status: String,
    pub ahead: u32,
    pub behind: u32,
}

impl GitPreviewData {
    pub fn empty() -> (r: Self)
        ensures
            r.branch@ == Seq::<char>::empty(),
            r.status@ == Seq::<char>::empty(),
            r.ahead == 0,
            r.behind == 0,
    {
        GitPreviewData { branch: String::new(), status: String::new(), ahead: 0, behind: 0 }
    }
}

impl Clone for GitPreviewData {
    fn clone(&self) -> (r: Self)
        ensures
            r == *self,
    {
        let r = GitPreviewData {
            branch: self.branch.clone(),
            status: self.status.clone(),
            ahead: self.ahead,
            behind: self.behind,
        };
        proof {
            assert(r == *self);
        }
        r
    }
}

/// Everything the collectors read for one render pass: the model name, the
/// working directory, optional token counts, the optional rate-limit
/// percentage in tenths of a percent with its reset time, and an optional
/// version-control snapshot.
#[derive(Debug)]
pub struct StatusLineContext {
    pub model_name: String,
    pub cwd: String,
    pub context_used_tokens: Option<i64>,
    pub context_window_size: Option<i64>,
    pub rate_limit_percent_tenths: Option<u32>,
    pub rate_limit_resets_at: Option<String>,
    pub git_preview: Option<GitPreviewData>,
}

impl StatusLineContext {
    pub fn new(model_name: &str, cwd: &str) -> (r: Self)
        ensures
            r.model_name@ == model_name@,
            r.cwd@ == cwd@,
            r.context_used_tokens is None,
            r.context_window_size is None,
            r.rate_limit_percent_tenths is None,
            r.rate_limit_resets_at is None,
            r.git_preview is None,
    {
        StatusLineContext {
            model_name: model_name.to_owned(),
            cwd: cwd.to_owned(),
            context_used_tokens: None,
            context_window_size: None,
            rate_limit_percent_tenths: None,
            rate_limit_resets_at: None,
            git_preview: None,
        }
    }

    pub fn with_context(self, used_tokens: Option<i64>, window_size: Option<i64>) -> (r: Self)
        ensures
            r == (StatusLineContext {
                context_used_tokens: used_tokens,
                context_window_size: window_size,
                ..self
            }),
    {
        StatusLineContext {
            context_used_tokens: used_tokens,
            context_window_size: window_size,
            ..self
        }
    }

    pub fn with_rate_limit(self, percent_tenths: Option<u32>, resets_at: Option<String>) -> (r:
        Self)
        ensures
            r == (StatusLineContext {
                rate_limit_percent_tenths: percent_tenths,
                rate_limit_resets_at: resets_at,
                ..self
            }),
    {
        StatusLineContext {
            rate_limit_percent_tenths: percent_tenths,
            rate_limit_resets_at: resets_at,
            ..self
        }
    }

    pub fn with_git_preview(self, branch: &str, status: &str, ahead: u32, behind: u32) -> (r: Self)
        ensures
            r.git_preview matches Some(p) && p.branch@ == branch@ && p.status@ == status@
                && p.ahead == ahead && p.behind == behind,
            r.model_name == self.model_name,
            r.cwd == self.cwd,
            r.context_used_tokens == self.context_used_tokens,
            r.context_window_size == self.context_window_size,
            r.rate_limit_percent_tenths == self.rate_limit_percent_tenths,
            r.rate_limit_resets_at == self.rate_limit_resets_at,
    {
        StatusLineContext {
            git_preview: Some(
                GitPreviewData {
                    branch: branch.to_owned(),
                    status: status.to_owned(),
                    ahead,
                    behind,
                },
            ),
            ..self
        }
    }
}

pub open spec fn spec_model_included(c: CxLineConfig, ctx: StatusLineContext) -> bool {
    c.segments.model.enabled && ctx.model_name@.len() > 0
}

pub open spec fn spec_directory_included(c: CxLineConfig, ctx: StatusLineContext) -> bool {
    c.segments.directory.enabled && spec_dir_name(ctx.cwd@).len() > 0
}

pub open spec fn spec_git_included(c: CxLineConfig, ctx: StatusLineContext) -> bool {
    c.segments.git.enabled && (ctx.git_preview matches Some(p) && !(p.branch@.len() == 0
        && p.status@.len() == 0))
}

pub open spec fn spec_context_included(c: CxLineConfig, ctx: StatusLineContext) -> bool {
    c.segments.context.enabled
}

pub open spec fn spec_usage_included(c: CxLineConfig, ctx: StatusLineContext) -> bool {
    c.segments.usage.enabled && ctx.rate_limit_percent_tenths is Some
}

/// Which segments the line holds, in the fixed order the line shows them.
pub open spec fn spec_line_ids(c: CxLineConfig, ctx: StatusLineContext) -> Seq<SegmentId> {
    (if spec_model_included(c, ctx) {
        seq![SegmentId::Model]
    } else {
        Seq::<SegmentId>::empty()
    }) + (if spec_directory_included(c, ctx) {
        seq![SegmentId::Directory]
    } else {
        Seq::<SegmentId>::empty()
    }) + (if spec_git_included(c, ctx) {
        seq![SegmentId::Git]
    } else {
        Seq::<SegmentId>::empty()
    }) + (if spec_context_included(c, ctx) {
        seq![SegmentId::Context]
    } else {
        Seq::<SegmentId>::empty()
    }) + (if spec_usage_included(c, ctx) {
        seq![SegmentId::Usage]
    } else {
        Seq::<SegmentId>::empty()
    })
}

/// What each segment's collector promises of the data filed under its id.
pub open spec fn spec_collected_data_ok(
    ctx: StatusLineContext,
    id: SegmentId,
    d: SegmentData,
) -> bool {
    match id {
        SegmentId::Model => spec_model_data(ctx, d),
        SegmentId::Directory => spec_directory_data(ctx, d),
        SegmentId::Git => spec_git_preview_segment_data(ctx.git_preview->0, d),
        SegmentId::Context => spec_context_data(ctx, d),
        SegmentId::Usage => spec_usage_data(ctx, d),
    }
}

/// Collects every enabled segment's data, in the fixed segment order, and
/// returns the renderer holding it.
pub fn build_statusline(config: &CxLineConfig, ctx: &StatusLineContext) -> (r: StatusLineRenderer)
    ensures
        r.config == *config,
        r.segments@.map_values(|p: (SegmentId, SegmentData)| p.0) == spec_line_ids(*config, *ctx),
        forall|k: int|
            0 <= k < r.segments@.len() ==> spec_collected_data_ok(
                *ctx,
                (#[trigger] r.segments@[k]).0,
                r.segments@[k].1,
            ),
{
    let ghost f = |p: (SegmentId, SegmentData)| p.0;
    let mut renderer = StatusLineRenderer::new(config);
    proof {
        assert(renderer.segments@.map_values(f) =~= Seq::<SegmentId>::empty());
    }
    if config.segments.model.enabled {
        let segment = ModelSegment;
        match segment.collect(ctx) {
            Some(data) => {
                let ghost before = renderer.segments@;
                renderer.add_segment(SegmentId::Model, data);
                proof {
                    assert(renderer.segments@.map_values(f) =~= before.map_values(f).push(
                        SegmentId::Model,
                    ));
                }
            },
            None => {},
        }
    }
    let ghost part1 = (if spec_model_included(*config, *ctx) {
        seq![SegmentId::Model]
    } else {
        Seq::<SegmentId>::empty()
    });
    proof {
        assert(renderer.segments@.map_values(f) =~= part1);
    }
    if config.segments.directory.enabled {
        let segment = DirectorySegment;
        match segment.collect(ctx) {
            Some(data) => {
                let ghost before = renderer.segments@;
                renderer.add_segment(SegmentId::Directory, data);
                proof {
                    assert(renderer.segments@.map_values(f) =~= before.map_values(f).push(
                        SegmentId::Directory,
                    ));
                }
            },
            None => {},
        }
    }
    let ghost part2 = part1 + (if spec_directory_included(*config, *ctx) {
        seq![SegmentId::Directory]
    } else {
        Seq::<SegmentId>::empty()
    });
    proof {
        assert(renderer.segments@.map_values(f) =~= part2);
    }
    if config.segments.git.enabled {
        let segment = GitSegment;
        match segment.collect(ctx) {
            Some(data) => {
                let ghost before = renderer.segments@;
                renderer.add_segment(SegmentId::Git, data);
                proof {
                    assert(renderer.segments@.map_values(f) =~= before.map_values(f).push(
                        SegmentId::Git,
                    ));
                }
            },
            None => {},
        }
    }
    let ghost part3 = part2 + (if spec_git_included(*config, *ctx) {
        seq![SegmentId::Git]
    } else {
        Seq::<SegmentId>::empty()
    });
    proof {
        assert(renderer.segments@.map_values(f) =~= part3);
    }
    if config.segments.context.enabled {
        let segment = ContextSegment;
        match segment.collect(ctx) {
            Some(data) => {
                let ghost before = renderer.segments@;
                renderer.add_segment(SegmentId::Context, data);
                proof {
                    assert(renderer.segments@.map_values(f) =~= before.map_values(f).push(
                        SegmentId::Context,
                    ));
                }
            },
            None => {},
        }
    }
    let ghost part4 = part3 + (if spec_context_included(*config, *ctx) {
        seq![SegmentId::Context]
    } else {
        Seq::<SegmentId>::empty()
    });
    proof {
        assert(renderer.segments@.map_values(f) =~= part4);
    }
    if config.segments.usage.enabled {
        let segment = UsageSegment;
        match segment.collect(ctx) {
            Some(data) => {
                let ghost before = renderer.segments@;
                renderer.add_segment(SegmentId::Usage, data);
                proof {
                    assert(renderer.segments@.map_values(f) =~= before.map_values(f).push(
                        SegmentId::Usage,
                    ));
                }
            },
            None => {},
        }
    }
    proof {
        assert(renderer.segments@.map_values(f) =~= spec_line_ids(*config, *ctx));
        assert(renderer.segments@.map_values(
            |p: (SegmentId, SegmentData)| p.0,
        ) == renderer.segments@.map_values(f));
    }
    renderer
}

} // verus!
