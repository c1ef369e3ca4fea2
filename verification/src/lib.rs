//! A print-layout engine: pages divided into a column/row grid, populated
//! with positioned content blocks, rendered into deterministic SVG and
//! LaTeX markup and an audit markdown transcript, with a provenance log of
//! the design decisions behind them, and the intake state machine that
//! produces a project specification.
//!
//! All lengths in the geometry are integer hundredths of a typographic
//! point (1 pt = 1/72 inch), so the tiling arithmetic is exact; the intake
//! record carries physical dimensions in thousandths of an inch.
pub mod error;
pub mod grid;
pub mod notes;
pub mod numfmt;
pub mod page;
pub mod project;
pub mod provenance;
pub mod render;
pub mod text;
pub mod wizard;

pub use grid::Grid;
pub use page::Page;
pub use provenance::DecisionTree;
