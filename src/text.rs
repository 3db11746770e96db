use vstd::prelude::*;
use vstd::string::*;

use crate::error::IngestError;
use crate::table::{cell_text, Table};

verus! {

/// The embeddable text of a record: `Title: {title} Plot: {plot}`.
pub open spec fn embed_text(title: Seq<char>, plot: Seq<char>) -> Seq<char> {
    "Title: "@ + title + " Plot: "@ + plot
}

/// The table's `Release Year` column recast as text, as the later stages read it.
pub fn preprocessing(raw: &Table) -> (r: Result<Table, IngestError>)
    requires
        raw.wf(),
    ensures
        r is Err <==> !raw.has_column("Release Year"@),
        r matches Err(e) ==> e matches IngestError::Schema { column } && column@
            == "Release Year"@,
        r matches Ok(t) ==> t.wf() && t.rows == raw.rows && t.columns@.len()
            == raw.columns@.len() && forall|c: int|
            0 <= c < t.columns@.len() ==> {
                &&& t.columns@[c].name@ == raw.columns@[c].name@
                &&& c != raw.index_of("Release Year"@) ==> t.columns@[c].cells@
                    == raw.columns@[c].cells@
                &&& c == raw.index_of("Release Year"@) ==> forall|row: int|
                    0 <= row < raw.rows ==> crate::table::recast(
                        raw.columns@[c].cells@[row],
                        t.columns@[c].cells@[row],
                    )
            },
{
    raw.coerce_to_text("Release Year")
}

/// One embeddable text per row, in row order, from the `Title` and `Plot`
/// columns; a missing value reads as empty. `Projection` names the first of the
/// two columns that is absent.
pub fn extract_text_data(t: &Table) -> (r: Result<Vec<String>, IngestError>)
    requires
        t.wf(),
    ensures
        !t.has_column("Title"@) ==> (r matches Err(IngestError::Projection { column }) && column@
            == "Title"@),
        t.has_column("Title"@) && !t.has_column("Plot"@) ==> (r matches Err(
            IngestError::Projection { column },
        ) && column@ == "Plot"@),
        r is Ok <==> t.has_column("Title"@) && t.has_column("Plot"@),
        r matches Ok(texts) ==> texts@.len() == t.rows && forall|i: int|
            0 <= i < t.rows ==> texts@[i]@ == embed_text(
                cell_text(t.cell_at("Title"@, i)),
                cell_text(t.cell_at("Plot"@, i)),
            ),
{
    let title_col = match t.find_column("Title") {
        None => {
            return Err(IngestError::Projection { column: String::from_str("Title") });
        },
        Some(i) => i,
    };
    let plot_col = match t.find_column("Plot") {
        None => {
            return Err(IngestError::Projection { column: String::from_str("Plot") });
        },
        Some(i) => i,
    };
    let titles = &t.columns[title_col].cells;
    let plots = &t.columns[plot_col].cells;
    let mut texts: Vec<String> = Vec::new();
    let mut i: usize = 0;
    while i < t.rows
        invariant
            t.wf(),
            titles@ == t.columns@[t.index_of("Title"@)].cells@,
            plots@ == t.columns@[t.index_of("Plot"@)].cells@,
            titles@.len() == t.rows,
            plots@.len() == t.rows,
            i <= t.rows,
            texts@.len() == i,
            forall|j: int|
                0 <= j < i ==> texts@[j]@ == embed_text(
                    cell_text(t.cell_at("Title"@, j)),
                    cell_text(t.cell_at("Plot"@, j)),
                ),
        decreases t.rows - i,
    {
        let mut s = String::from_str("Title: ");
        let title = titles[i].to_text();
        s.append(title.as_str());
        s.append(" Plot: ");
        let plot = plots[i].to_text();
        s.append(plot.as_str());
        texts.push(s);
        i += 1;
    }
    Ok(texts)
}

} // verus!
