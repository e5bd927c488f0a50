pub mod context;
pub mod directory;
pub mod git;
pub mod model;
pub mod usage;
