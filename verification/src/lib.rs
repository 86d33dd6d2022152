//! The state and the decisions of the Drydock desktop shell.
pub mod activation;
pub mod activation_page;
pub mod catalog;
pub mod cloud;
pub mod details;
pub mod downloads;
pub mod downloads_page;
pub mod gallery;
pub mod guard;
pub mod guide;
pub mod header_resolver;
pub mod helpers;
pub mod home;
pub mod ids;
pub mod laws;
pub mod library;
pub mod library_actions;
pub mod library_page;
pub mod order;
pub mod rate_limiter;
pub mod refresh;
pub mod service;
pub mod settings_page;
pub mod shell;
pub mod startup;
pub mod state;
pub mod steam;
pub mod tags;
pub mod text;
pub mod timing;
pub mod tools;
pub mod types;
pub mod unlocks;
pub mod updates;
