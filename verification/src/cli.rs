//! The rendering configuration handed in by the command-line collaborator.
//!
//! Parsing arguments is the collaborator's job; the library only defines the
//! plain configuration values the renderer is driven by.

use vstd::prelude::*;

verus! {

/// How a frame is produced.
#[derive(Debug, Clone, Copy, PartialEq, Eq, Structural)]
pub enum Method {
    /// One-shot recursive tracing of every pixel.
    Basic,
    /// Build the ray forest once, then reduce it.
    RayForest,
}

/// Benchmark parameters.
#[derive(Debug, Clone, Copy, PartialEq, Eq, Structural)]
pub struct BenchmarkConfig {
    /// How many times to run the measured operation.
    pub runs: i32,
    /// Whether to measure the filtered (partial) re-render instead of the
    /// full one.
    pub filter_mode: bool,
}

/// What the program has been asked to do.
#[derive(Debug, Clone, Copy, PartialEq, Eq, Structural)]
pub enum Subcommand {
    /// Render one frame.
    Normal,
    /// Run benchmark loops.
    Benchmark(BenchmarkConfig),
}

/// The full rendering configuration.
#[derive(Debug, Clone, Copy)]
pub struct Config {
    pub width: usize,
    pub height: usize,
    pub depth: usize,
    pub to_terminal: bool,
    pub gui: bool,
    pub method: Method,
    pub interactive: bool,
    pub subcommand: Subcommand,
    pub print_forest_stats: bool,
}

} // verus!
