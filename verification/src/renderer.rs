use vstd::prelude::*;

verus! {

use crate::config::CxLineConfig;
use crate::config::SegmentItemConfig;
use crate::config::spec_seg_cfg;
use crate::segment::SegmentData;
use crate::segment::SegmentId;
use crate::segment::assoc_find;
use crate::style::StyleMode;
use crate::style::spec_icon_for_mode;
use vstd::string::StrSliceExecFns;
use vstd::string::StringExecFns;

/// How one span of text is drawn: optional foreground and background colors,
/// boldness, and dimming. An unset color inherits the terminal default.
#[derive(Debug, Clone, Copy, PartialEq, Eq, Structural)]
pub struct SpanStyle {
    pub fg: Option<crate::style::AnsiColor>,
    pub bg: Option<crate::style::AnsiColor>,
    pub bold: bool,
    pub dim: bool,
}

/// One styled run of text in the rendered line.
#[derive(Debug)]
pub struct Span {
    pub text: String,
    pub style: SpanStyle,
}

/// The text and style of each span, as mathematical values.
pub open spec fn span_views(s: Seq<Span>) -> Seq<(Seq<char>, SpanStyle)> {
    s.map_values(|sp: Span| (sp.text@, sp.style))
}

/// The separator span of plain rendering: the configured separator, dimmed.
pub open spec fn spec_sep_span(c: CxLineConfig) -> (Seq<char>, SpanStyle) {
    (c.separator@, SpanStyle { fg: None, bg: None, bold: false, dim: true })
}

/// The icon a segment shows: the dynamic icon from its metadata when present
/// and non-empty, the statically configured icon for the active mode
/// otherwise.
pub open spec fn spec_resolved_icon(c: CxLineConfig, id: SegmentId, d: SegmentData) -> Seq<char> {
    match assoc_find(d.metadata@, "dynamic_icon"@) {
        Some(di) => if di.len() > 0 {
            di
        } else {
            spec_icon_for_mode(spec_seg_cfg(c, id).icon, c.style)
        },
        None => spec_icon_for_mode(spec_seg_cfg(c, id).icon, c.style),
    }
}

pub open spec fn spec_plain_text_style(sc: SegmentItemConfig) -> SpanStyle {
    SpanStyle { fg: sc.colors.text, bg: None, bold: sc.styles.text_bold, dim: false }
}

pub open spec fn spec_plain_icon_style(sc: SegmentItemConfig) -> SpanStyle {
    SpanStyle { fg: sc.colors.icon, bg: None, bold: false, dim: false }
}

/// The spans of one segment in plain rendering: the icon followed by a
/// space when there is an icon, the primary text, and the secondary text
/// behind a space when there is one.
pub open spec fn spec_plain_segment_spans(c: CxLineConfig, id: SegmentId, d: SegmentData) -> Seq<
    (Seq<char>, SpanStyle),
> {
    let sc = spec_seg_cfg(c, id);
    let icon = spec_resolved_icon(c, id, d);
    let head: Seq<(Seq<char>, SpanStyle)> = if icon.len() > 0 {
        seq![(icon + " "@, spec_plain_icon_style(sc))]
    } else {
        seq![]
    };
    let mid = head.push((d.primary@, spec_plain_text_style(sc)));
    if d.secondary@.len() > 0 {
        mid.push((" "@ + d.secondary@, spec_plain_text_style(sc)))
    } else {
        mid
    }
}

/// Plain rendering of a list of enabled segments: their spans in order, a
/// separator span between consecutive segments.
pub open spec fn spec_plain_line(c: CxLineConfig, e: Seq<(SegmentId, SegmentData)>) -> Seq<
    (Seq<char>, SpanStyle),
>
    decreases e.len(),
{
    if e.len() == 0 {
        seq![]
    } else if e.len() == 1 {
        spec_plain_segment_spans(c, e[0].0, e[0].1)
    } else {
        spec_plain_line(c, e.drop_last()) + seq![spec_sep_span(c)] + spec_plain_segment_spans(
            c,
            e.last().0,
            e.last().1,
        )
    }
}

/// The base style of a segment in powerline rendering: its background and
/// text colors and its boldness.
pub open spec fn spec_powerline_style(sc: SegmentItemConfig) -> SpanStyle {
    SpanStyle { fg: sc.colors.text, bg: sc.colors.background, bold: sc.styles.text_bold, dim: false }
}

/// The icon span's style: the base style, with the icon color as foreground
/// when one is set.
pub open spec fn spec_powerline_icon_style(sc: SegmentItemConfig) -> SpanStyle {
    match sc.colors.icon {
        Some(ic) => SpanStyle { fg: Some(ic), ..spec_powerline_style(sc) },
        None => spec_powerline_style(sc),
    }
}

/// The spans of one segment in powerline rendering: a padding space, the
/// icon followed by a space when there is one, the primary text, the
/// secondary text behind a space when there is one, and a padding space.
pub open spec fn spec_powerline_segment_spans(c: CxLineConfig, id: SegmentId, d: SegmentData) -> Seq<
    (Seq<char>, SpanStyle),
> {
    let sc = spec_seg_cfg(c, id);
    let st = spec_powerline_style(sc);
    let icon = spec_resolved_icon(c, id, d);
    let s0: Seq<(Seq<char>, SpanStyle)> = seq![(" "@, st)];
    let s1 = if icon.len() > 0 {
        s0.push((icon + " "@, spec_powerline_icon_style(sc)))
    } else {
        s0
    };
    let s2 = s1.push((d.primary@, st));
    let s3 = if d.secondary@.len() > 0 {
        s2.push((" "@ + d.secondary@, st))
    } else {
        s2
    };
    s3.push((" "@, st))
}

/// The wedge between two adjacent powerline segments: the arrow glyph, drawn
/// in the current segment's background color on the next segment's
/// background color.
pub open spec fn spec_arrow_span(c: CxLineConfig, cur: SegmentId, next: SegmentId) -> (
    Seq<char>,
    SpanStyle,
) {
    (
        "\u{e0b0}"@,
        SpanStyle {
            fg: spec_seg_cfg(c, cur).colors.background,
            bg: spec_seg_cfg(c, next).colors.background,
            bold: false,
            dim: false,
        },
    )
}

/// Powerline rendering of the first `k` of the enabled segments: each
/// segment's spans, an arrow span after every segment but the last.
pub open spec fn spec_powerline_prefix(
    c: CxLineConfig,
    e: Seq<(SegmentId, SegmentData)>,
    k: int,
) -> Seq<(Seq<char>, SpanStyle)>
    decreases k,
{
    if k <= 0 {
        seq![]
    } else {
        spec_powerline_prefix(c, e, k - 1) + spec_powerline_segment_spans(c, e[k - 1].0, e[k - 1].1)
            + if k < e.len() {
            seq![spec_arrow_span(c, e[k - 1].0, e[k].0)]
        } else {
            seq![]
        }
    }
}

/// Powerline rendering of a list of enabled segments.
pub open spec fn spec_powerline_line(c: CxLineConfig, e: Seq<(SegmentId, SegmentData)>) -> Seq<
    (Seq<char>, SpanStyle),
> {
    spec_powerline_prefix(c, e, e.len() as int)
}

/// The segments whose configuration enables them, in order.
pub open spec fn spec_enabled(c: CxLineConfig, segs: Seq<(SegmentId, SegmentData)>) -> Seq<
    (SegmentId, SegmentData),
> {
    segs.filter(|p: (SegmentId, SegmentData)| spec_seg_cfg(c, p.0).enabled)
}

/// What rendering a configuration and a segment list produces: the powerline
/// algorithm in powerline mode, the plain algorithm otherwise, both over the
/// enabled segments only.
pub open spec fn spec_render_line(c: CxLineConfig, segs: Seq<(SegmentId, SegmentData)>) -> Seq<
    (Seq<char>, SpanStyle),
> {
    if c.style == StyleMode::Powerline {
        spec_powerline_line(c, spec_enabled(c, segs))
    } else {
        spec_plain_line(c, spec_enabled(c, segs))
    }
}

/// Whether a span is a powerline arrow: its text is the arrow glyph.
pub open spec fn spec_is_arrow_span(sp: (Seq<char>, SpanStyle)) -> bool {
    sp.0 == "\u{e0b0}"@
}

/// The arrow spans of a span sequence, in order.
pub open spec fn spec_arrow_spans(s: Seq<(Seq<char>, SpanStyle)>) -> Seq<(Seq<char>, SpanStyle)> {
    s.filter(|sp: (Seq<char>, SpanStyle)| spec_is_arrow_span(sp))
}

/// A segment whose primary text is not the arrow glyph contributes no arrow
/// span of its own: its padding and secondary spans start with a space, and
/// its icon span ends with one.
proof fn lemma_powerline_segment_no_arrow(c: CxLineConfig, id: SegmentId, d: SegmentData)
    requires
        d.primary@ != "\u{e0b0}"@,
    ensures
        spec_arrow_spans(spec_powerline_segment_spans(c, id, d)) == Seq::<
            (Seq<char>, SpanStyle),
        >::empty(),
{
    reveal_strlit(" ");
    reveal_strlit("\u{e0b0}");
    assert(" "@[0] == ' ');
    assert("\u{e0b0}"@[0] == '\u{e0b0}');
    let s = spec_powerline_segment_spans(c, id, d);
    assert forall|i: int| 0 <= i < s.len() implies !spec_is_arrow_span(#[trigger] s[i]) by {
        let sc = spec_seg_cfg(c, id);
        let st = spec_powerline_style(sc);
        let icon = spec_resolved_icon(c, id, d);
        let s0: Seq<(Seq<char>, SpanStyle)> = seq![(" "@, st)];
        let s1 = if icon.len() > 0 {
            s0.push((icon + " "@, spec_powerline_icon_style(sc)))
        } else {
            s0
        };
        let s2 = s1.push((d.primary@, st));
        let s3 = if d.secondary@.len() > 0 {
            s2.push((" "@ + d.secondary@, st))
        } else {
            s2
        };
        assert(s == s3.push((" "@, st)));
        assert(" "@ != "\u{e0b0}"@);
        assert((icon + " "@).len() == icon.len() + 1);
        assert((" "@ + d.secondary@).len() == 1 + d.secondary@.len());
        assert(icon.len() > 0 ==> icon + " "@ != "\u{e0b0}"@);
        assert(d.secondary@.len() > 0 ==> " "@ + d.secondary@ != "\u{e0b0}"@);
    }
    s.lemma_all_neg_filter_empty(|sp: (Seq<char>, SpanStyle)| spec_is_arrow_span(sp));
    assert(spec_arrow_spans(s) =~= Seq::<(Seq<char>, SpanStyle)>::empty());
}

/// Powerline rendering of two enabled segments whose texts are not
/// themselves the arrow glyph produces exactly one arrow span, standing
/// between them, whose foreground is the first segment's background color
/// and whose background is the second segment's background color.
pub proof fn lemma_powerline_arrow_pair(c: CxLineConfig, e: Seq<(SegmentId, SegmentData)>)
    requires
        e.len() == 2,
        e[0].1.primary@ != "\u{e0b0}"@,
        e[1].1.primary@ != "\u{e0b0}"@,
    ensures
        spec_arrow_spans(spec_powerline_line(c, e)) == seq![spec_arrow_span(c, e[0].0, e[1].0)],
        spec_arrow_span(c, e[0].0, e[1].0).1.fg == spec_seg_cfg(c, e[0].0).colors.background,
        spec_arrow_span(c, e[0].0, e[1].0).1.bg == spec_seg_cfg(c, e[1].0).colors.background,
{
    broadcast use vstd::seq_lib::group_seq_lib_default;

    let pred = |sp: (Seq<char>, SpanStyle)| spec_is_arrow_span(sp);
    let sp0 = spec_powerline_segment_spans(c, e[0].0, e[0].1);
    let sp1 = spec_powerline_segment_spans(c, e[1].0, e[1].1);
    let arrow = spec_arrow_span(c, e[0].0, e[1].0);
    assert(spec_powerline_prefix(c, e, 0) == Seq::<(Seq<char>, SpanStyle)>::empty());
    assert(spec_powerline_prefix(c, e, 1) == Seq::<(Seq<char>, SpanStyle)>::empty() + sp0 + seq![
        arrow,
    ]);
    assert(spec_powerline_line(c, e) == spec_powerline_prefix(c, e, 1) + sp1 + Seq::<
        (Seq<char>, SpanStyle),
    >::empty());
    lemma_powerline_segment_no_arrow(c, e[0].0, e[0].1);
    lemma_powerline_segment_no_arrow(c, e[1].0, e[1].1);
    reveal_with_fuel(Seq::<_>::filter, 2);
    assert(seq![arrow].drop_last() =~= Seq::<(Seq<char>, SpanStyle)>::empty());
    assert(seq![arrow].filter(pred) =~= seq![arrow]);
    assert(spec_arrow_spans(spec_powerline_line(c, e)) =~= seq![arrow]);
}

/// Powerline rendering of one enabled segment whose text is not the arrow
/// glyph produces no arrow span.
pub proof fn lemma_powerline_single_no_arrow(c: CxLineConfig, e: Seq<(SegmentId, SegmentData)>)
    requires
        e.len() == 1,
        e[0].1.primary@ != "\u{e0b0}"@,
    ensures
        spec_arrow_spans(spec_powerline_line(c, e)) == Seq::<(Seq<char>, SpanStyle)>::empty(),
{
    broadcast use vstd::seq_lib::group_seq_lib_default;

    let pred = |sp: (Seq<char>, SpanStyle)| spec_is_arrow_span(sp);
    let sp0 = spec_powerline_segment_spans(c, e[0].0, e[0].1);
    assert(spec_powerline_prefix(c, e, 0) == Seq::<(Seq<char>, SpanStyle)>::empty());
    assert(spec_powerline_line(c, e) == Seq::<(Seq<char>, SpanStyle)>::empty() + sp0 + Seq::<
        (Seq<char>, SpanStyle),
    >::empty());
    lemma_powerline_segment_no_arrow(c, e[0].0, e[0].1);
    assert(spec_arrow_spans(spec_powerline_line(c, e)) =~= Seq::<(Seq<char>, SpanStyle)>::empty());
}

/// The pair law at the rendering entry: in powerline mode, a segment list
/// whose enabled part holds exactly two segments, neither showing the
/// arrow glyph as its own text, renders exactly one arrow span -- drawn in
/// the first segment's background color on the second segment's.
pub proof fn lemma_render_line_arrow_pair(c: CxLineConfig, segs: Seq<(SegmentId, SegmentData)>)
    requires
        c.style == StyleMode::Powerline,
        spec_enabled(c, segs).len() == 2,
        spec_enabled(c, segs)[0].1.primary@ != "\u{e0b0}"@,
        spec_enabled(c, segs)[1].1.primary@ != "\u{e0b0}"@,
    ensures
        spec_arrow_spans(spec_render_line(c, segs)) == seq![
            spec_arrow_span(c, spec_enabled(c, segs)[0].0, spec_enabled(c, segs)[1].0),
        ],
{
    lemma_powerline_arrow_pair(c, spec_enabled(c, segs));
}

/// The single-segment law at the rendering entry: in powerline mode, one
/// enabled segment renders with no arrow span at all.
pub proof fn lemma_render_line_single_no_arrow(
    c: CxLineConfig,
    segs: Seq<(SegmentId, SegmentData)>,
)
    requires
        c.style == StyleMode::Powerline,
        spec_enabled(c, segs).len() == 1,
        spec_enabled(c, segs)[0].1.primary@ != "\u{e0b0}"@,
    ensures
        spec_arrow_spans(spec_render_line(c, segs)) == Seq::<(Seq<char>, SpanStyle)>::empty(),
{
    lemma_powerline_single_no_arrow(c, spec_enabled(c, segs));
}

proof fn lemma_seg_cfg_like_all(a: CxLineConfig, b: CxLineConfig, id: SegmentId)
    requires
        crate::config::config_like(a, b),
    ensures
        crate::config::seg_cfg_like(spec_seg_cfg(a, id), spec_seg_cfg(b, id)),
{
}

proof fn lemma_plain_segment_spans_like(
    a: CxLineConfig,
    b: CxLineConfig,
    id: SegmentId,
    d: SegmentData,
)
    requires
        crate::config::config_like(a, b),
    ensures
        spec_plain_segment_spans(a, id, d) == spec_plain_segment_spans(b, id, d),
{
    lemma_seg_cfg_like_all(a, b, id);
    assert(spec_resolved_icon(a, id, d) == spec_resolved_icon(b, id, d));
    assert(spec_plain_segment_spans(a, id, d) =~= spec_plain_segment_spans(b, id, d));
}

proof fn lemma_powerline_segment_spans_like(
    a: CxLineConfig,
    b: CxLineConfig,
    id: SegmentId,
    d: SegmentData,
)
    requires
        crate::config::config_like(a, b),
    ensures
        spec_powerline_segment_spans(a, id, d) == spec_powerline_segment_spans(b, id, d),
{
    lemma_seg_cfg_like_all(a, b, id);
    assert(spec_resolved_icon(a, id, d) == spec_resolved_icon(b, id, d));
    assert(spec_powerline_segment_spans(a, id, d) =~= spec_powerline_segment_spans(b, id, d));
}

proof fn lemma_enabled_like(a: CxLineConfig, b: CxLineConfig, segs: Seq<(SegmentId, SegmentData)>)
    requires
        crate::config::config_like(a, b),
    ensures
        spec_enabled(a, segs) == spec_enabled(b, segs),
    decreases segs.len(),
{
    reveal_with_fuel(Seq::<_>::filter, 2);
    if segs.len() == 0 {
        assert(spec_enabled(a, segs) =~= spec_enabled(b, segs));
    } else {
        lemma_enabled_like(a, b, segs.drop_last());
        lemma_seg_cfg_like_all(a, b, segs.last().0);
    }
}

proof fn lemma_plain_line_like(a: CxLineConfig, b: CxLineConfig, e: Seq<(SegmentId, SegmentData)>)
    requires
        crate::config::config_like(a, b),
    ensures
        spec_plain_line(a, e) == spec_plain_line(b, e),
    decreases e.len(),
{
    if e.len() == 0 {
    } else if e.len() == 1 {
        lemma_plain_segment_spans_like(a, b, e[0].0, e[0].1);
    } else {
        lemma_plain_line_like(a, b, e.drop_last());
        lemma_plain_segment_spans_like(a, b, e.last().0, e.last().1);
        assert(spec_sep_span(a) == spec_sep_span(b));
    }
}

proof fn lemma_powerline_prefix_like(
    a: CxLineConfig,
    b: CxLineConfig,
    e: Seq<(SegmentId, SegmentData)>,
    k: int,
)
    requires
        crate::config::config_like(a, b),
    ensures
        spec_powerline_prefix(a, e, k) == spec_powerline_prefix(b, e, k),
    decreases k,
{
    if k > 0 {
        lemma_powerline_prefix_like(a, b, e, k - 1);
        lemma_powerline_segment_spans_like(a, b, e[k - 1].0, e[k - 1].1);
        if k < e.len() {
            lemma_seg_cfg_like_all(a, b, e[k - 1].0);
            lemma_seg_cfg_like_all(a, b, e[k].0);
            assert(spec_arrow_span(a, e[k - 1].0, e[k].0) == spec_arrow_span(
                b,
                e[k - 1].0,
                e[k].0,
            ));
        }
    }
}

/// Two configurations that store the same settings render identical span
/// sequences for the same collected data -- in particular, a configuration
/// written out and read back in renders the same line.
pub proof fn lemma_like_configs_render_alike(
    a: CxLineConfig,
    b: CxLineConfig,
    segs: Seq<(SegmentId, SegmentData)>,
)
    requires
        crate::config::config_like(a, b),
    ensures
        spec_render_line(a, segs) == spec_render_line(b, segs),
{
    lemma_enabled_like(a, b, segs);
    if a.style == StyleMode::Powerline {
        lemma_powerline_prefix_like(a, b, spec_enabled(a, segs), spec_enabled(a, segs).len() as int);
    } else {
        lemma_plain_line_like(a, b, spec_enabled(a, segs));
    }
}

proof fn lemma_span_views_push(s: Seq<Span>, x: Span)
    ensures
        span_views(s.push(x)) == span_views(s).push((x.text@, x.style)),
{
    assert(span_views(s.push(x)) =~= span_views(s).push((x.text@, x.style)));
}

/// Renders one line from a configuration and the collected segment data.
pub struct StatusLineRenderer {
    pub config: CxLineConfig,
    pub segments: Vec<(SegmentId, SegmentData)>,
}

impl StatusLineRenderer {
    pub fn new(config: &CxLineConfig) -> (r: Self)
        ensures
            r.config == *config,
            r.segments@ == Seq::<(SegmentId, SegmentData)>::empty(),
    {
        let r = StatusLineRenderer { config: config.clone(), segments: Vec::new() };
        proof {
            assert(r.segments@ =~= Seq::<(SegmentId, SegmentData)>::empty());
        }
        r
    }

    /// Appends one segment's data to the line.
    pub fn add_segment(&mut self, id: SegmentId, data: SegmentData)
        ensures
            final(self).config == old(self).config,
            final(self).segments@ == old(self).segments@.push((id, data)),
    {
        self.segments.push((id, data));
    }

    /// The icon a segment shows, under the dynamic-icon precedence rule.
    fn get_icon(&self, id: SegmentId, data: &SegmentData) -> (r: String)
        ensures
            r@ == spec_resolved_icon(self.config, id, *data),
    {
        match data.metadata_get("dynamic_icon") {
            Some(di) => {
                if di.as_str().unicode_len() > 0 {
                    return di.clone();
                }
            },
            None => {},
        }
        let sc = self.config.get_segment_config(id);
        sc.icon.get(self.config.style).to_owned()
    }

    /// The positions of the enabled segments, in order.
    fn enabled_positions(&self) -> (idxs: Vec<usize>)
        ensures
            idxs@.map_values(|j: usize| self.segments@[j as int]) == spec_enabled(
                self.config,
                self.segments@,
            ),
            forall|k: int| 0 <= k < idxs@.len() ==> #[trigger] idxs@[k] < self.segments@.len(),
    {
        let ghost segs = self.segments@;
        let ghost pred = |p: (SegmentId, SegmentData)| spec_seg_cfg(self.config, p.0).enabled;
        let mut idxs: Vec<usize> = Vec::new();
        let n = self.segments.len();
        let mut i: usize = 0;
        proof {
            assert(segs.take(0) =~= Seq::<(SegmentId, SegmentData)>::empty());
            reveal_with_fuel(Seq::<_>::filter, 1);
            assert(idxs@.map_values(|j: usize| segs[j as int]) =~= segs.take(0).filter(pred));
        }
        while i < n
            invariant
                segs == self.segments@,
                pred == (|p: (SegmentId, SegmentData)| spec_seg_cfg(self.config, p.0).enabled),
                n == segs.len(),
                0 <= i <= n,
                idxs@.map_values(|j: usize| segs[j as int]) == segs.take(i as int).filter(pred),
                forall|k: int| 0 <= k < idxs@.len() ==> #[trigger] idxs@[k] < i,
            decreases n - i,
        {
            let ghost old_idxs = idxs@;
            let id = self.segments[i].0;
            if self.config.get_segment_config(id).enabled {
                idxs.push(i);
            }
            proof {
                let t1 = segs.take(i + 1);
                assert(t1.drop_last() =~= segs.take(i as int));
                assert(t1.last() == segs[i as int]);
                reveal_with_fuel(Seq::<_>::filter, 2);
                if pred(segs[i as int]) {
                    assert(t1.filter(pred) == segs.take(i as int).filter(pred).push(
                        segs[i as int],
                    ));
                    assert(idxs@.map_values(|j: usize| segs[j as int]) =~= old_idxs.map_values(
                        |j: usize| segs[j as int],
                    ).push(segs[i as int]));
                } else {
                    assert(t1.filter(pred) == segs.take(i as int).filter(pred));
                }
            }
            i = i + 1;
        }
        proof {
            assert(segs.take(n as int) =~= segs);
        }
        idxs
    }

    /// Appends one segment's plain-mode spans.
    fn push_plain_segment(&self, spans: &mut Vec<Span>, id: SegmentId, data: &SegmentData)
        ensures
            span_views(final(spans)@) == span_views(old(spans)@) + spec_plain_segment_spans(
                self.config,
                id,
                *data,
            ),
    {
        let ghost base = span_views(spans@);
        let sc = self.config.get_segment_config(id);
        let text_style = SpanStyle {
            fg: sc.colors.text,
            bg: None,
            bold: sc.styles.text_bold,
            dim: false,
        };
        let icon = self.get_icon(id, data);
        if icon.as_str().unicode_len() > 0 {
            let icon_style = SpanStyle { fg: sc.colors.icon, bg: None, bold: false, dim: false };
            let mut t = icon;
            t.append(" ");
            let sp = Span { text: t, style: icon_style };
            proof {
                lemma_span_views_push(spans@, sp);
            }
            spans.push(sp);
        }
        let sp = Span { text: data.primary.clone(), style: text_style };
        proof {
            lemma_span_views_push(spans@, sp);
        }
        spans.push(sp);
        if data.secondary.as_str().unicode_len() > 0 {
            let mut t = " ".to_owned();
            t.append(data.secondary.as_str());
            let sp2 = Span { text: t, style: text_style };
            proof {
                lemma_span_views_push(spans@, sp2);
            }
            spans.push(sp2);
        }
        proof {
            assert(span_views(spans@) =~= base + spec_plain_segment_spans(
                self.config,
                id,
                *data,
            ));
        }
    }

    /// Appends one segment's powerline-mode spans.
    fn push_powerline_segment(&self, spans: &mut Vec<Span>, id: SegmentId, data: &SegmentData)
        ensures
            span_views(final(spans)@) == span_views(old(spans)@) + spec_powerline_segment_spans(
                self.config,
                id,
                *data,
            ),
    {
        let ghost base = span_views(spans@);
        let sc = self.config.get_segment_config(id);
        let st = SpanStyle {
            fg: sc.colors.text,
            bg: sc.colors.background,
            bold: sc.styles.text_bold,
            dim: false,
        };
        let pad = Span { text: " ".to_owned(), style: st };
        proof {
            lemma_span_views_push(spans@, pad);
        }
        spans.push(pad);
        let icon = self.get_icon(id, data);
        if icon.as_str().unicode_len() > 0 {
            let icon_style = match sc.colors.icon {
                Some(ic) => SpanStyle { fg: Some(ic), ..st },
                None => st,
            };
            let mut t = icon;
            t.append(" ");
            let sp = Span { text: t, style: icon_style };
            proof {
                lemma_span_views_push(spans@, sp);
            }
            spans.push(sp);
        }
        let sp = Span { text: data.primary.clone(), style: st };
        proof {
            lemma_span_views_push(spans@, sp);
        }
        spans.push(sp);
        if data.secondary.as_str().unicode_len() > 0 {
            let mut t = " ".to_owned();
            t.append(data.secondary.as_str());
            let sp2 = Span { text: t, style: st };
            proof {
                lemma_span_views_push(spans@, sp2);
            }
            spans.push(sp2);
        }
        let pad2 = Span { text: " ".to_owned(), style: st };
        proof {
            lemma_span_views_push(spans@, pad2);
        }
        spans.push(pad2);
        proof {
            assert(span_views(spans@) =~= base + spec_powerline_segment_spans(
                self.config,
                id,
                *data,
            ));
        }
    }

    /// Plain and Nerd-Font rendering.
    fn render_plain(&self) -> (r: Vec<Span>)
        ensures
            span_views(r@) == spec_plain_line(
                self.config,
                spec_enabled(self.config, self.segments@),
            ),
    {
        let ghost e = spec_enabled(self.config, self.segments@);
        let idxs = self.enabled_positions();
        let mut spans: Vec<Span> = Vec::new();
        let m = idxs.len();
        let mut k: usize = 0;
        proof {
            assert(span_views(spans@) =~= spec_plain_line(self.config, e.take(0)));
        }
        while k < m
            invariant
                e == spec_enabled(self.config, self.segments@),
                idxs@.map_values(|j: usize| self.segments@[j as int]) == e,
                forall|t: int| 0 <= t < idxs@.len() ==> #[trigger] idxs@[t]
                    < self.segments@.len(),
                m == idxs@.len(),
                0 <= k <= m,
                span_views(spans@) == spec_plain_line(self.config, e.take(k as int)),
            decreases m - k,
        {
            let j = idxs[k];
            let ghost pre = span_views(spans@);
            proof {
                assert(e[k as int] == idxs@.map_values(|jj: usize| self.segments@[jj as int])[
                    k as int
                ]);
                assert(e[k as int] == self.segments@[j as int]);
            }
            if k > 0 {
                let sep_style = SpanStyle { fg: None, bg: None, bold: false, dim: true };
                let sep = Span { text: self.config.separator.clone(), style: sep_style };
                proof {
                    lemma_span_views_push(spans@, sep);
                }
                spans.push(sep);
            }
            self.push_plain_segment(&mut spans, self.segments[j].0, &self.segments[j].1);
            proof {
                let t1 = e.take(k as int + 1);
                assert(t1.drop_last() =~= e.take(k as int));
                assert(t1.last() == e[k as int]);
                if k == 0 {
                    assert(t1[0] == e[0]);
                    assert(span_views(spans@) =~= spec_plain_line(self.config, t1));
                } else {
                    assert(span_views(spans@) =~= spec_plain_line(self.config, t1));
                }
            }
            k = k + 1;
        }
        proof {
            assert(e.take(m as int) =~= e);
        }
        spans
    }

    /// Powerline rendering.
    fn render_powerline(&self) -> (r: Vec<Span>)
        ensures
            span_views(r@) == spec_powerline_line(
                self.config,
                spec_enabled(self.config, self.segments@),
            ),
    {
        let ghost e = spec_enabled(self.config, self.segments@);
        let idxs = self.enabled_positions();
        let mut spans: Vec<Span> = Vec::new();
        let m = idxs.len();
        let mut k: usize = 0;
        proof {
            assert(span_views(spans@) =~= spec_powerline_prefix(self.config, e, 0));
        }
        while k < m
            invariant
                e == spec_enabled(self.config, self.segments@),
                idxs@.map_values(|j: usize| self.segments@[j as int]) == e,
                forall|t: int| 0 <= t < idxs@.len() ==> #[trigger] idxs@[t]
                    < self.segments@.len(),
                m == idxs@.len(),
                0 <= k <= m,
                span_views(spans@) == spec_powerline_prefix(self.config, e, k as int),
            decreases m - k,
        {
            let j = idxs[k];
            proof {
                assert(e[k as int] == idxs@.map_values(|jj: usize| self.segments@[jj as int])[
                    k as int
                ]);
                assert(e[k as int] == self.segments@[j as int]);
            }
            self.push_powerline_segment(&mut spans, self.segments[j].0, &self.segments[j].1);
            if k + 1 < m {
                let jn = idxs[k + 1];
                proof {
                    assert(e[k as int + 1] == idxs@.map_values(
                        |jj: usize| self.segments@[jj as int],
                    )[k as int + 1]);
                    assert(e[k as int + 1] == self.segments@[jn as int]);
                }
                let cur_bg = self.config.get_segment_config(self.segments[j].0).colors.background;
                let next_bg = self.config.get_segment_config(
                    self.segments[jn].0,
                ).colors.background;
                let arrow_style = SpanStyle { fg: cur_bg, bg: next_bg, bold: false, dim: false };
                let arrow = Span { text: "\u{e0b0}".to_owned(), style: arrow_style };
                proof {
                    lemma_span_views_push(spans@, arrow);
                }
                spans.push(arrow);
            }
            proof {
                assert(span_views(spans@) =~= spec_powerline_prefix(
                    self.config,
                    e,
                    k as int + 1,
                ));
            }
            k = k + 1;
        }
        proof {
            assert(e.take(m as int) =~= e);
        }
        spans
    }

    /// Renders the line: an ordered sequence of styled spans.
    pub fn render_line(&self) -> (r: Vec<Span>)
        ensures
            span_views(r@) == spec_render_line(self.config, self.segments@),
    {
        match self.config.style {
            StyleMode::Powerline => self.render_powerline(),
            StyleMode::Plain => self.render_plain(),
            StyleMode::NerdFont => self.render_plain(),
        }
    }
}

} // verus!
