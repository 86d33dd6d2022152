//! The promises of the library, stated over its operations: what a call answers and leaves behind
//! for every input, and how calls relate to each other.
pub mod activation;
pub mod cloud;
pub mod details;
pub mod downloads;
pub mod fields;
pub mod frames;
pub mod games;
pub mod headers;
pub mod helpers;
pub mod home;
pub mod library;
pub mod lists;
pub mod messages;
pub mod pages;
pub mod parts;
pub mod queue;
pub mod refresh;
pub mod service;
pub mod settings;
pub mod shell;
pub mod startup;
pub mod steam;
pub mod store;
pub mod text;
pub mod tools;
pub mod unlocks;
pub mod updates;
