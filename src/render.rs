//! Command outcomes and what is shown of them.
//!
//! A tabular outcome keeps the raw bytes it was built from, so choosing the
//! table view is a display preference and never loses data.

use vstd::prelude::*;

verus! {

/// A tabular outcome, with the response it was built from.
#[derive(Debug)]
pub struct TableResult {
    /// The response's headers, as (name, value) pairs.
    pub headers: Vec<(String, String)>,
    /// The response body as received.
    pub raw: Vec<u8>,
    /// The column titles.
    pub header: Vec<String>,
    /// The table's rows.
    pub rows: Vec<Vec<String>>,
}

impl TableResult {
    /// A tabular outcome from its parts.
    pub fn new(
        headers: Vec<(String, String)>,
        raw: Vec<u8>,
        header: Vec<String>,
        rows: Vec<Vec<String>>,
    ) -> (r: TableResult)
        ensures
            r == (TableResult { headers, raw, header, rows }),
    {
        TableResult { headers, raw, header, rows }
    }
}

/// The outcome of a command.
#[derive(Debug)]
pub enum CommandResult {
    /// A table view, backed by the response it was built from.
    Table(TableResult),
    /// A response body, shown as it is.
    Response(Vec<u8>),
    /// Nothing to show.
    Empty,
}

/// What to show of an outcome.
#[derive(Debug, PartialEq, Eq)]
pub enum Rendered {
    /// A table, with its column titles and rows.
    Table(Vec<String>, Vec<Vec<String>>),
    /// Response bytes, unchanged.
    Body(Vec<u8>),
    /// No output.
    Nothing,
}

impl CommandResult {
    /// What is shown of this outcome: the table only where the table view is
    /// asked for, otherwise the bytes of the response.
    pub open spec fn rendering(self, table_mode: bool) -> Rendered {
        match self {
            CommandResult::Table(t) => if table_mode {
                Rendered::Table(t.header, t.rows)
            } else {
                Rendered::Body(t.raw)
            },
            CommandResult::Response(b) => Rendered::Body(b),
            CommandResult::Empty => Rendered::Nothing,
        }
    }

    /// Reduces this outcome to what is shown of it.
    pub fn render(self, table_mode: bool) -> (r: Rendered)
        ensures
            r == self.rendering(table_mode),
    {
        match self {
            CommandResult::Table(t) => if table_mode {
                Rendered::Table(t.header, t.rows)
            } else {
                Rendered::Body(t.raw)
            },
            CommandResult::Response(b) => Rendered::Body(b),
            CommandResult::Empty => Rendered::Nothing,
        }
    }
}

/// Without the table view a tabular outcome shows the response bytes it was
/// built from, unchanged, whatever its table holds.
pub proof fn table_off_shows_raw_bytes(t: TableResult, u: TableResult)
    requires
        t.raw == u.raw,
    ensures
        CommandResult::Table(t).rendering(false) == Rendered::Body(t.raw),
        CommandResult::Table(t).rendering(false) == CommandResult::Table(u).rendering(false),
{
}

} // verus!
