//! Segmentation of scanned point-cloud captures into labelled building-model
//! documents.
//!
//! The heart of the crate is the [`engine`]: a state machine that takes a
//! `Start` message, reads the capture ([`capture`]), keeps the points of the
//! expected shape ([`record`], [`table`]), makes the labelled document
//! ([`document`]) under the caller's parameters ([`params`]), and hands it on
//! when it is sent an `Export`. Every failure is one of a closed set
//! ([`error`]).
//!
//! Around it stand the decisions of the front ends: the states a person moves
//! through ([`user`]), the table view ([`viewer`]) with its colours
//! ([`colors`], [`pywal`]), and the stages of a preprocessing pipeline
//! ([`pipeline`]).
//!
//! Nothing here touches files or the terminal. A front end reads the bytes of
//! a capture and hands them over, and writes what an export hands back.

pub mod capture;
pub mod colors;
pub mod document;
pub mod engine;
pub mod error;
pub mod params;
pub mod pipeline;
pub mod pywal;
pub mod record;
pub mod table;
pub mod user;
pub mod viewer;
