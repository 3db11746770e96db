use vstd::prelude::*;
use vstd::string::*;

use crate::error::IngestError;
use crate::table::{cell_text, Cell, Table};

verus! {

/// The key/value view of a payload.
pub open spec fn pairs_view(v: Seq<(String, String)>) -> Seq<(Seq<char>, Seq<char>)> {
    v.map_values(|p: (String, String)| (p.0@, p.1@))
}

/// The entry that column `col` gives under `key` at `row`: none when the column
/// is absent or the value is missing.
pub open spec fn field_entry(t: Table, row: int, key: Seq<char>, col: Seq<char>) -> Seq<
    (Seq<char>, Seq<char>),
> {
    if t.has_column(col) && !(t.cell_at(col, row) is Null) {
        seq![(key, cell_text(t.cell_at(col, row)))]
    } else {
        Seq::empty()
    }
}

/// The payload of a row: title, year, origin, director and genre, in that
/// order, each only where the row holds a value.
pub open spec fn payload_of(t: Table, row: int) -> Seq<(Seq<char>, Seq<char>)> {
    field_entry(t, row, "title"@, "Title"@) + field_entry(t, row, "year"@, "Release Year"@)
        + field_entry(t, row, "origin"@, "Origin/Ethnicity"@) + field_entry(
        t,
        row,
        "director"@,
        "Director"@,
    ) + field_entry(t, row, "genre"@, "Genre"@)
}

/// `key` names no entry of the payload.
pub open spec fn lacks_key(p: Seq<(Seq<char>, Seq<char>)>, key: Seq<char>) -> bool {
    forall|i: int| 0 <= i < p.len() ==> p[i].0 != key
}

fn push_field(t: &Table, row: usize, key: &str, col: &str, out: &mut Vec<(String, String)>)
    requires
        t.wf(),
        row < t.rows,
    ensures
        pairs_view(final(out)@) == pairs_view(old(out)@) + field_entry(*t, row as int, key@, col@),
{
    match t.find_column(col) {
        None => {
            assert(pairs_view(out@) =~= pairs_view(out@) + Seq::empty());
        },
        Some(i) => {
            let c = &t.columns[i].cells[row];
            match c {
                Cell::Null => {
                    assert(pairs_view(out@) =~= pairs_view(out@) + Seq::empty());
                },
                _ => {
                    let entry = (String::from_str(key), c.to_text());
                    let ghost before = out@;
                    out.push(entry);
                    assert(pairs_view(out@) =~= pairs_view(before) + seq![(key@, cell_text(*c))]);
                },
            }
        },
    }
}

/// The payload of row `row`: only the fields that hold a value at that row;
/// `RowIndex` when the row is outside the table.
pub fn project_payload(t: &Table, row: usize) -> (r: Result<Vec<(String, String)>, IngestError>)
    requires
        t.wf(),
    ensures
        r is Err <==> row >= t.rows,
        r is Err ==> r == Err::<Vec<(String, String)>, IngestError>(
            IngestError::RowIndex { row, rows: t.rows },
        ),
        r matches Ok(p) ==> pairs_view(p@) == payload_of(*t, row as int),
{
    if row >= t.rows {
        return Err(IngestError::RowIndex { row, rows: t.rows });
    }
    let mut out: Vec<(String, String)> = Vec::new();
    assert(pairs_view(out@) =~= Seq::empty());
    push_field(t, row, "title", "Title", &mut out);
    push_field(t, row, "year", "Release Year", &mut out);
    push_field(t, row, "origin", "Origin/Ethnicity", &mut out);
    push_field(t, row, "director", "Director", &mut out);
    push_field(t, row, "genre", "Genre", &mut out);
    assert(pairs_view(out@) =~= payload_of(*t, row as int));
    Ok(out)
}

/// A field whose value is missing at a row is left out of that row's payload,
/// never written as an empty value: without a director, no `director` key.
pub proof fn lemma_missing_field_omitted(t: Table, row: int)
    requires
        t.wf(),
        0 <= row < t.rows,
    ensures
        !t.has_column("Director"@) || t.cell_at("Director"@, row) is Null ==> lacks_key(
            payload_of(t, row),
            "director"@,
        ),
        !t.has_column("Title"@) || t.cell_at("Title"@, row) is Null ==> lacks_key(
            payload_of(t, row),
            "title"@,
        ),
        !t.has_column("Release Year"@) || t.cell_at("Release Year"@, row) is Null ==> lacks_key(
            payload_of(t, row),
            "year"@,
        ),
        !t.has_column("Origin/Ethnicity"@) || t.cell_at("Origin/Ethnicity"@, row) is Null
            ==> lacks_key(payload_of(t, row), "origin"@),
        !t.has_column("Genre"@) || t.cell_at("Genre"@, row) is Null ==> lacks_key(
            payload_of(t, row),
            "genre"@,
        ),
{
    reveal_strlit("title");
    reveal_strlit("year");
    reveal_strlit("origin");
    reveal_strlit("director");
    reveal_strlit("genre");
    let keys = seq!["title"@, "year"@, "origin"@, "director"@, "genre"@];
    assert forall|i: int, j: int| 0 <= i < 5 && 0 <= j < 5 && i != j implies keys[i]
        != keys[j] by {
        if keys[i].len() == keys[j].len() {
            assert(keys[i][0] != keys[j][0]);
        }
    }
}

} // verus!
