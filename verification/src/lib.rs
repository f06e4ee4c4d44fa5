//! Editing model of a video trimming and conversion tool: output profiles,
//! crop selections, the trimming timeline, preview playback state and the
//! decisions taken while rendering.

pub mod crop;
pub mod encoders;
pub mod export;
pub mod info;
pub mod orientation;
pub mod preview;
pub mod profiles;
pub mod render;
pub mod text;
pub mod time;
pub mod timeline;
pub mod uri;
