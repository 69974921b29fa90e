pub mod audio;
pub mod config;
pub mod deps;
pub mod dirs;
pub mod error;
pub mod paths;
pub mod pipeline;
pub mod platform;
pub mod presentation;
pub mod queue_view;
pub mod progress;
pub mod splitter;
pub mod text;
pub mod youtube;
