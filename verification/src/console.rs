//! The console: what it shows, and what it does when asked.
pub mod controller;
pub mod desk;
pub mod drafts;
pub mod hosts;
pub mod laws;
pub mod model;
pub mod notifications;
pub mod pages;
pub mod runs;
pub mod settings;
