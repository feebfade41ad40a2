//! Verified core of a flake-resistant browser-driving library.
//!
//! The library confirms that page interactions (navigate, click, fill,
//! scroll) actually took effect, despite races from in-flight navigation,
//! redirects and DOM mutation.  All browser state is reached through the
//! [`engine::EngineAdapter`] capability trait; the verification loops,
//! the error classifier and the selector and URL utilities are verified.

pub mod classify;
pub mod click;
pub mod content;
pub mod engine;
pub mod fill;
pub mod highlevel;
pub mod jsonv;
pub mod launcher;
pub mod navigate;
pub mod scroll;
pub mod selectors;
pub mod stabilize;
pub mod strutil;
pub mod timing;
pub mod urls;
pub mod visibility;
pub mod wait;
