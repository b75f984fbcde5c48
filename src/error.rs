//! Errors of the library.
use vstd::prelude::*;

verus! {

/// Which of the two catalog listings an error comes from.
#[derive(Debug, Clone, Copy, PartialEq, Eq, Structural)]
pub enum CatalogQuery {
    ListUnits,
    ListUnitFiles,
}

/// The failures that the dashboard reports.
#[derive(Debug, PartialEq, Eq)]
pub enum RounalError {
    /// The terminal could not be set up or restored.
    TerminalError(String),
    /// An external command could not be started.
    CommandError(String),
    /// The log query at this severity reported failure, with its error text.
    JournalCtlError(u8, String),
    /// A catalog listing reported failure, with its error text.
    SystemCtlError(CatalogQuery, String),
    /// A log aggregation ended before this severity reported back.
    AggregationIncomplete(u8),
    /// The configuration file is missing or malformed.
    ConfigurationFileError,
    /// The clipboard could not be reached.
    ClipboardError,
}

} // verus!
