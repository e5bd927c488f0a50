pub mod color_picker;
pub mod config;
pub mod icon_selector;
pub mod icons;
pub mod name_input;
pub mod renderer;
pub mod segment;
pub mod segments;
pub mod separator_editor;
pub mod statusline;
pub mod style;
pub mod text;
pub mod themes;
pub mod update_action;
