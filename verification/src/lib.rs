//! The core of a courses service: grading what users hand in for tasks,
//! keeping their progress, and reading it through a cache.
//!
//! * [`progress`], [`task`], [`score`]: the data.
//! * [`grading`]: the three ways of grading and what each makes of a
//!   submission.
//! * [`submit`], [`dispatch`], [`read`]: the decisions of handing in, of
//!   grading apart from the request, and of reading through the cache, each
//!   as a machine that is driven with events and answers with actions.
//! * [`cache`]: the entries of the cache, their keys and lifetimes, and what
//!   a write makes stale.
//! * [`model`], [`laws`]: a model of store, cache and grading service, and
//!   what the machines guarantee when run against it.
//! * [`text`], [`json`]: numerals, splitting, and the documents that are
//!   stored.
//! * [`course`], [`module`], [`user`], [`certs`], [`token`], [`error`]: the
//!   catalogue, the users and the shapes of what is reported.

pub mod cache;
pub mod certs;
pub mod course;
pub mod dispatch;
pub mod error;
pub mod grading;
pub mod json;
pub mod laws;
pub mod model;
pub mod module;
pub mod progress;
pub mod read;
pub mod score;
pub mod submit;
pub mod task;
pub mod text;
pub mod token;
pub mod user;
