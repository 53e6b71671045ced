//! Evidence lens data: codegraph/oracle impact-pack evidence and
//! tool-building opportunities, with the cells the codegraph table shows.

use vstd::prelude::*;

use crate::text::{join_strings, joined, texts_of};

verus! {

/// One codegraph/oracle query result.
#[derive(Debug, Clone, PartialEq, Eq)]
pub struct CodegraphEvidenceRow {
    pub query_id: String,
    pub tool: String,
    pub symbol: String,
    pub schema_version: u32,
    pub references: u32,
    pub required_reads: Vec<String>,
    pub proof_lanes: Vec<String>,
    pub miss: Option<String>,
}

/// One repeated-code cluster worth turning into a tool.
#[derive(Debug, Clone, PartialEq, Eq)]
pub struct ToolBuildOpportunityRow {
    pub cluster_id: String,
    pub repo_id: String,
    pub score: u64,
    pub occurrences: usize,
    pub file_count: usize,
    pub language: String,
    pub suggested_proof_lane: String,
}

/// A list cell: the entries joined with commas, or a dash when empty.
pub open spec fn list_cell(parts: Seq<String>) -> Seq<char> {
    if parts.len() == 0 {
        "—"@
    } else {
        joined(texts_of(parts), ","@)
    }
}

/// The symbol cell: the symbol, with the miss reason in brackets when the
/// query missed.
pub open spec fn symbol_cell_of(symbol: Seq<char>, miss: Option<String>) -> Seq<char> {
    match miss {
        Some(m) => symbol + " ("@ + m@ + ")"@,
        None => symbol,
    }
}

/// Render a list cell.
fn list_cell_text(parts: &Vec<String>) -> (r: String)
    ensures
        r@ == list_cell(parts@),
{
    if parts.len() == 0 {
        "—".to_owned()
    } else {
        join_strings(parts.as_slice(), ",")
    }
}

impl CodegraphEvidenceRow {
    /// Required reads, comma-joined (a dash when none).
    pub fn reads_cell(&self) -> (r: String)
        ensures
            r@ == list_cell(self.required_reads@),
    {
        list_cell_text(&self.required_reads)
    }

    /// Proof lanes, comma-joined (a dash when none).
    pub fn lanes_cell(&self) -> (r: String)
        ensures
            r@ == list_cell(self.proof_lanes@),
    {
        list_cell_text(&self.proof_lanes)
    }

    /// The symbol, annotated with the miss reason when the query missed.
    pub fn symbol_cell(&self) -> (r: String)
        ensures
            r@ == symbol_cell_of(self.symbol@, self.miss),
    {
        match &self.miss {
            Some(m) => {
                let mut s = self.symbol.clone();
                s.append(" (");
                s.append(m.as_str());
                s.append(")");
                s
            },
            None => self.symbol.clone(),
        }
    }
}

} // verus!
