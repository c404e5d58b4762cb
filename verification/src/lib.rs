//! Core logic of a small personal website: webhook signature verification,
//! the self-update control flow, the blog index, the image gallery and the
//! activity summary shown on the front page.

pub mod activity;
pub mod blog;
pub mod gallery;
pub mod pages;
pub mod signature;
pub mod update;
pub mod visit;
