//! Cross-process GPU surface sharing.
//!
//! A pixel buffer is painted on one side (the painting process or thread) and
//! consumed on the other (the compositing side) as a GPU texture, without a
//! full pixel copy. The buffer travels as a native shareable-image handle,
//! here carried as a plain integer token; the zero token means "no handle".
//! The native graphics calls that create, share, and release such handles live
//! with the embedder, which hands the raw handle values in and out of this
//! crate; everything this crate states about the lifecycle of a surface is
//! verified.

pub mod config;
pub mod geometry;
pub mod surface;
