use vstd::prelude::*;

verus! {

use crate::segment::SegmentId;
use crate::style::ColorConfig;
use crate::style::IconConfig;
use crate::style::StyleMode;
use crate::style::TextStyleConfig;
use crate::themes::ThemePresets;
use crate::themes::is_cometix_theme;
use crate::themes::spec_builtin_content;
use crate::themes::spec_default_content;
use crate::themes::spec_default_context_seg;
use crate::themes::spec_default_directory_seg;
use crate::themes::spec_default_git_seg;
use crate::themes::spec_default_model_seg;
use crate::themes::spec_default_segments;
use crate::themes::spec_default_usage_seg;
use crate::themes::spec_is_builtin_name;

/// Appearance of one segment: whether it shows, its icon pair, its colors and
/// its text attributes.
#[derive(Debug)]
pub struct SegmentItemConfig {
    pub id: SegmentId,
    pub enabled: bool,
    pub icon: IconConfig,
    pub colors: ColorConfig,
    pub styles: TextStyleConfig,
}

impl Clone for SegmentItemConfig {
    fn clone(&self) -> (r: Self)
        ensures
            r == *self,
    {
        let r = SegmentItemConfig {
            id: self.id,
            enabled: self.enabled,
            icon: self.icon.clone(),
            colors: self.colors,
            styles: self.styles,
        };
        proof {
            assert(r == *self);
        }
        r
    }
}

/// The five per-segment configurations, one field per segment kind.
#[derive(Debug)]
pub struct SegmentsConfig {
    pub model: SegmentItemConfig,
    pub directory: SegmentItemConfig,
    pub git: SegmentItemConfig,
    pub context: SegmentItemConfig,
    pub usage: SegmentItemConfig,
}

impl Clone for SegmentsConfig {
    fn clone(&self) -> (r: Self)
        ensures
            r == *self,
    {
        let r = SegmentsConfig {
            model: self.model.clone(),
            directory: self.directory.clone(),
            git: self.git.clone(),
            context: self.context.clone(),
            usage: self.usage.clone(),
        };
        proof {
            assert(r == *self);
        }
        r
    }
}

impl Default for SegmentsConfig {
    fn default() -> (r: Self)
        ensures
            spec_default_segments(r),
    {
        let theme = ThemePresets::get_default();
        theme.segments
    }
}

/// The whole status-line configuration: a master switch, the active theme's
/// name, the style mode, the separator string for plain rendering, and the
/// five segment configurations.
#[derive(Debug)]
pub struct CxLineConfig {
    pub enabled: bool,
    pub theme: String,
    pub style: StyleMode,
    pub separator: String,
    pub segments: SegmentsConfig,
}

/// Two segment configurations that store the same settings: equal flags,
/// colors and attributes, and icon texts with the same characters.
pub open spec fn seg_cfg_like(a: SegmentItemConfig, b: SegmentItemConfig) -> bool {
    &&& a.id == b.id
    &&& a.enabled == b.enabled
    &&& a.icon.plain@ == b.icon.plain@
    &&& a.icon.nerd_font@ == b.icon.nerd_font@
    &&& a.colors == b.colors
    &&& a.styles == b.styles
}

/// Two configurations that store the same settings in every field.
pub open spec fn config_like(a: CxLineConfig, b: CxLineConfig) -> bool {
    &&& a.enabled == b.enabled
    &&& a.theme@ == b.theme@
    &&& a.style == b.style
    &&& a.separator@ == b.separator@
    &&& seg_cfg_like(a.segments.model, b.segments.model)
    &&& seg_cfg_like(a.segments.directory, b.segments.directory)
    &&& seg_cfg_like(a.segments.git, b.segments.git)
    &&& seg_cfg_like(a.segments.context, b.segments.context)
    &&& seg_cfg_like(a.segments.usage, b.segments.usage)
}

/// The per-segment configuration that a segment id selects.
pub open spec fn spec_seg_cfg(c: CxLineConfig, id: SegmentId) -> SegmentItemConfig {
    match id {
        SegmentId::Model => c.segments.model,
        SegmentId::Directory => c.segments.directory,
        SegmentId::Git => c.segments.git,
        SegmentId::Context => c.segments.context,
        SegmentId::Usage => c.segments.usage,
    }
}

impl Clone for CxLineConfig {
    fn clone(&self) -> (r: Self)
        ensures
            r == *self,
    {
        let r = CxLineConfig {
            enabled: self.enabled,
            theme: self.theme.clone(),
            style: self.style,
            separator: self.separator.clone(),
            segments: self.segments.clone(),
        };
        proof {
            assert(r == *self);
        }
        r
    }
}

impl Default for CxLineConfig {
    fn default() -> (r: Self)
        ensures
            is_cometix_theme(r),
    {
        ThemePresets::get_theme("cometix")
    }
}

impl CxLineConfig {
    /// Replaces the theme name, the style mode, the separator and all five
    /// segment configurations with the given theme's values; the master
    /// switch keeps its old value.
    pub fn apply_theme_from(&mut self, theme_name: &str, theme: CxLineConfig)
        ensures
            final(self).enabled == old(self).enabled,
            final(self).theme@ == theme_name@,
            final(self).style == theme.style,
            final(self).separator == theme.separator,
            final(self).segments == theme.segments,
    {
        self.theme = theme_name.to_owned();
        self.style = theme.style;
        self.separator = theme.separator;
        self.segments = theme.segments;
    }

    /// Applies a named preset from the built-in catalog; an unknown name
    /// applies the default preset, under the given name.
    pub fn apply_theme(&mut self, theme_name: &str)
        ensures
            final(self).enabled == old(self).enabled,
            final(self).theme@ == theme_name@,
            spec_is_builtin_name(theme_name@) ==> spec_builtin_content(theme_name@, *final(self)),
            !spec_is_builtin_name(theme_name@) ==> spec_default_content(*final(self)),
    {
        let theme = ThemePresets::get_theme(theme_name);
        self.apply_theme_from(theme_name, theme);
    }

    /// The configuration of the given segment.
    pub fn get_segment_config(&self, id: SegmentId) -> (r: &SegmentItemConfig)
        ensures
            *r == spec_seg_cfg(*self, id),
    {
        match id {
            SegmentId::Model => &self.segments.model,
            SegmentId::Directory => &self.segments.directory,
            SegmentId::Git => &self.segments.git,
            SegmentId::Context => &self.segments.context,
            SegmentId::Usage => &self.segments.usage,
        }
    }

    /// Overwrites the configuration of the given segment.
    pub fn set_segment_config(&mut self, id: SegmentId, cfg: SegmentItemConfig)
        ensures
            spec_seg_cfg(*final(self), id) == cfg,
            forall|other: SegmentId| other != id ==> spec_seg_cfg(*final(self), other)
                == spec_seg_cfg(*old(self), other),
            final(self).enabled == old(self).enabled,
            final(self).theme == old(self).theme,
            final(self).style == old(self).style,
            final(self).separator == old(self).separator,
    {
        match id {
            SegmentId::Model => {
                self.segments.model = cfg;
            },
            SegmentId::Directory => {
                self.segments.directory = cfg;
            },
            SegmentId::Git => {
                self.segments.git = cfg;
            },
            SegmentId::Context => {
                self.segments.context = cfg;
            },
            SegmentId::Usage => {
                self.segments.usage = cfg;
            },
        }
    }
}

impl SegmentItemConfig {
    pub fn default_model() -> (r: Self)
        ensures
            spec_default_model_seg(r),
    {
        ThemePresets::get_default().segments.model
    }

    pub fn default_directory() -> (r: Self)
        ensures
            spec_default_directory_seg(r),
    {
        ThemePresets::get_default().segments.directory
    }

    pub fn default_git() -> (r: Self)
        ensures
            spec_default_git_seg(r),
    {
        ThemePresets::get_default().segments.git
    }

    pub fn default_context() -> (r: Self)
        ensures
            spec_default_context_seg(r),
    {
        ThemePresets::get_default().segments.context
    }

    pub fn default_usage() -> (r: Self)
        ensures
            spec_default_usage_seg(r),
    {
        ThemePresets::get_default().segments.usage
    }
}

} // verus!
