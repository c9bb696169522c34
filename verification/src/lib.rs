//! Routing of language detection and translation over a set of
//! interchangeable backends.
//!
//! A [`dispatcher::Dispatcher`] keeps a registry of named backends with the
//! health of each. For every attempt of a call it chooses a backend at random,
//! in proportion to the routing weights, and it records what came of the
//! attempt: a backend that keeps failing backs off for longer and longer, and
//! one success makes it eligible again. The rules are stated over a
//! mathematical model in [`health`] and [`selection`], and the executable
//! code is proved against them.
//!
//! The library makes no request itself. [`google::Backend`] says where a
//! backend is asked and reads what it answers; the caller makes the request
//! in between and supplies the clock, as nanoseconds of a monotonic clock.

pub mod api;
pub mod catalog;
pub mod dispatcher;
pub mod error;
pub mod google;
pub mod health;
pub mod html;
pub mod json;
pub mod language;
pub mod selection;
mod text;
pub mod translator;

pub use crate::api::Translation;
pub use crate::error::Error;
pub use crate::language::Language;
pub use crate::translator::{DetectorBuilder, Strategy, TranslatorBuilder, TranslatorType};
