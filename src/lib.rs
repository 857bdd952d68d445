//! Orchestration, caching and exposure selection for building HDR radiance
//! maps out of bracketed photographs with external imaging tools.

pub mod command;
pub mod exposure;
pub mod formats;
pub mod image_cache;
pub mod orchestrator;
pub mod pipeline;
pub mod stages;
pub mod text;
