//! The error vocabulary of the layout core. Every failure carries the
//! offending identifier or dimension, and `message` renders it for display.
use vstd::prelude::*;

verus! {

use vstd::string::StringExecFns;
use crate::numfmt::spec_u64_str;
use crate::numfmt::u64_to_string;

#[derive(Debug, Clone, PartialEq, Eq)]
pub enum LayoutError {
    /// Zero columns or rows, or a page too small to leave each cell a
    /// strictly positive size.
    InvalidGridDimensions { columns: u32, rows: u32 },
    /// A coordinate or span lying outside the grid extent, or a span
    /// smaller than one cell.
    InvalidSpan { col: u32, row: u32, col_span: u32, row_span: u32 },
    /// A block id that already exists on the page.
    DuplicateBlockId { id: String },
    /// A decision id with no entry in the provenance index.
    UnknownDecisionId { id: String },
    /// A parent chain that revisits a decision id instead of ending at a root.
    CyclicLineage { id: String },
}

/// What `message` returns for each error value.
pub open spec fn spec_message(e: LayoutError) -> Seq<char> {
    match e {
        LayoutError::InvalidGridDimensions { columns, rows } => "invalid grid dimensions: "@
            + spec_u64_str(columns as int) + " columns x "@ + spec_u64_str(rows as int)
            + " rows"@,
        LayoutError::InvalidSpan { col, row, col_span, row_span } => "invalid span: cell ("@
            + spec_u64_str(col as int) + ", "@ + spec_u64_str(row as int) + ") spanning "@
            + spec_u64_str(col_span as int) + " x "@ + spec_u64_str(row_span as int),
        LayoutError::DuplicateBlockId { id } => "duplicate block id: "@ + id@,
        LayoutError::UnknownDecisionId { id } => "unknown decision id: "@ + id@,
        LayoutError::CyclicLineage { id } => "cyclic lineage at decision id: "@ + id@,
    }
}

impl LayoutError {
    /// A human-readable account of the failure, naming the offending
    /// identifier or dimension.
    pub fn message(&self) -> (s: String)
        ensures
            s@ == spec_message(*self),
    {
        match self {
            LayoutError::InvalidGridDimensions { columns, rows } => {
                let mut s = "invalid grid dimensions: ".to_owned();
                s.append(u64_to_string(*columns as u64).as_str());
                s.append(" columns x ");
                s.append(u64_to_string(*rows as u64).as_str());
                s.append(" rows");
                proof {
                    assert(s@ =~= spec_message(*self));
                }
                s
            },
            LayoutError::InvalidSpan { col, row, col_span, row_span } => {
                let mut s = "invalid span: cell (".to_owned();
                s.append(u64_to_string(*col as u64).as_str());
                s.append(", ");
                s.append(u64_to_string(*row as u64).as_str());
                s.append(") spanning ");
                s.append(u64_to_string(*col_span as u64).as_str());
                s.append(" x ");
                s.append(u64_to_string(*row_span as u64).as_str());
                proof {
                    assert(s@ =~= spec_message(*self));
                }
                s
            },
            LayoutError::DuplicateBlockId { id } => {
                let mut s = "duplicate block id: ".to_owned();
                s.append(id.as_str());
                proof {
                    assert(s@ =~= spec_message(*self));
                }
                s
            },
            LayoutError::UnknownDecisionId { id } => {
                let mut s = "unknown decision id: ".to_owned();
                s.append(id.as_str());
                proof {
                    assert(s@ =~= spec_message(*self));
                }
                s
            },
            LayoutError::CyclicLineage { id } => {
                let mut s = "cyclic lineage at decision id: ".to_owned();
                s.append(id.as_str());
                proof {
                    assert(s@ =~= spec_message(*self));
                }
                s
            },
        }
    }
}

} // verus!
