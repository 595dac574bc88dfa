//! Core logic of the IcedLens media viewer: the media list of a directory
//! and navigation through it (wrap-around, image-only and filtered peeks,
//! skipping of media that fail to load), media classification and filters,
//! configuration defaults and the choices made while loading it, directory
//! resolution, the persisted state, and the decisions behind the
//! application's screens, settings, editors, AI models and downloads.

pub mod path_util;
pub mod text;
pub mod media;
pub mod filter;
pub mod media_list;
pub mod listing;
pub mod navigation;
pub mod retry;
pub mod defaults;
pub mod config;
pub mod paths;
pub mod persisted_state;
pub mod screen;
pub mod notifications;
pub mod download;
pub mod startup;
pub mod models;
pub mod settings;
pub mod editor;
pub mod ports;
