//! Thermal transient evaluation: the labelled modes of an evaluation, the
//! command line of the evaluation tool, the layout of measurement files, and
//! the integer decisions of the evaluation pipeline (which settings are
//! refused, which stages run, which samples are kept, how fit windows and
//! network blocks are placed, which bootstrap repetitions are kept, what a
//! comparison compares, which series are exported, which keys a result
//! offers), and a registry of results under unique labels, each with its
//! contract.
//!
//! The numerical stages themselves (derivative fits, deconvolution, network
//! synthesis, prediction, optimization) work on real numbers and live in the
//! tool around this library.

pub mod bootstrap;
pub mod cli;
pub mod comparison;
pub mod config;
pub mod derivative;
pub mod error;
pub mod evaluation;
pub mod export;
pub mod network;
pub mod optimization;
pub mod preprocess;
pub mod registry;
pub mod result_keys;
pub mod t3ster;
pub mod text;
