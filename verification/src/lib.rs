//! Navigation, filtering and layout logic of a terminal dashboard for a
//! pipeline orchestration service.

pub mod actions;
pub mod app;
pub mod cache;
pub mod command;
pub mod config;
pub mod coordinator;
pub mod fetch;
pub mod input;
pub mod layout;
pub mod navigation;
pub mod overlay;
pub mod pipelines;
pub mod poll;
pub mod render;
pub mod rows;
pub mod screens;
pub mod search;
pub mod selection;
pub mod text;
pub mod utils;
pub mod views;
