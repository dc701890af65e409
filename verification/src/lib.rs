//! Core of an interactive viewer for time-series waveform records and
//! volumetric complex-valued image data: an N-dimensional strided volume
//! indexer with orthogonal 2D slice extraction, a scalar-to-RGBA colormap
//! stage, a multi-axis plotting engine with cursor-anchored zoom and linked
//! pan, strided series construction, and the event-step interaction
//! controller that ties them together.
//!
//! Window bootstrap, widget trees, file dialogs and file I/O are external
//! collaborators and live outside this crate.

pub mod axis;
pub mod chart;
pub mod colormap;
pub mod controller;
pub mod dims;
pub mod errors;
pub mod series;
pub mod rational;
pub mod slice;
pub mod viewpanel;
pub mod volume;
