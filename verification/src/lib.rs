//! Media trackers of a media server: services such as Trakt that are told what users watch, and
//! that are asked what users have watched elsewhere.
//!
//! Nothing here sends a request, reads a row or waits. What goes on over time is a machine: it says
//! what is to be done next and, told how that went, goes on. Each step has a contract over a model
//! of the machine, and what holds of whole runs is proved of the model.
//!
//! - [`tracker`], [`media`], [`ids`], [`time`], [`double`]: what is spoken of.
//! - [`trakt`], [`remux`], [`rest`], [`json`], [`text`]: requests to Trakt and to the server, and
//!   the answers.
//! - [`addon`]: the tracker for Trakt.
//! - [`credentials`], [`subscriber`], [`import`], [`sync`]: the services that keep users and
//!   trackers in step.
//! - [`api`], [`dashboard`]: what users ask of the server, and what they see.

pub mod addon;
pub mod api;
pub mod credentials;
pub mod dashboard;
pub mod double;
pub mod ids;
pub mod import;
pub mod json;
pub mod media;
pub mod remux;
pub mod rest;
pub mod subscriber;
pub mod sync;
pub mod text;
pub mod time;
pub mod tracker;
pub mod trakt;
