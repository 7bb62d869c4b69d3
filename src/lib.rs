//! Client-side logic of the Blaze task-board command line: the data model,
//! short-id resolution, card filtering, request planning and text rendering.

pub mod commands;
pub mod config;
pub mod dates;
pub mod error;
pub mod filter;
pub mod paint;
pub mod render;
pub mod request;
pub mod resolve;
pub mod text;
pub mod types;
