use vstd::prelude::*;
use vstd::string::*;

use crate::error::IngestError;

verus! {

/// One value of the source table.
#[derive(Debug)]
pub enum Cell {
    Null,
    Int(i64),
    Text(String),
}

/// A named column of cells.
#[derive(Debug)]
pub struct Column {
    pub name: String,
    pub cells: Vec<Cell>,
}

/// A fully materialized table: `rows` rows, every column holding one cell per row.
#[derive(Debug)]
pub struct Table {
    pub rows: usize,
    pub columns: Vec<Column>,
}

pub open spec fn digit(d: nat) -> char {
    seq!['0', '1', '2', '3', '4', '5', '6', '7', '8', '9'][d as int]
}

/// Decimal digits of a natural number, most significant first.
pub open spec fn digits(n: nat) -> Seq<char>
    decreases n,
{
    if n < 10 {
        seq![digit(n)]
    } else {
        digits(n / 10).push(digit(n % 10))
    }
}

/// Decimal text of an integer, with a leading `-` when negative.
pub open spec fn decimal(n: int) -> Seq<char> {
    if n < 0 {
        seq!['-'] + digits((-n) as nat)
    } else {
        digits(n as nat)
    }
}

fn digit_text(d: u64) -> (r: &'static str)
    requires
        d < 10,
    ensures
        r@ == seq![digit(d as nat)],
{
    proof {
        reveal_strlit("0");
        reveal_strlit("1");
        reveal_strlit("2");
        reveal_strlit("3");
        reveal_strlit("4");
        reveal_strlit("5");
        reveal_strlit("6");
        reveal_strlit("7");
        reveal_strlit("8");
        reveal_strlit("9");
    }
    match d {
        0 => "0",
        1 => "1",
        2 => "2",
        3 => "3",
        4 => "4",
        5 => "5",
        6 => "6",
        7 => "7",
        8 => "8",
        _ => "9",
    }
}

fn push_digits(m: u64, s: &mut String)
    ensures
        final(s)@ == old(s)@ + digits(m as nat),
    decreases m,
{
    if m >= 10 {
        push_digits(m / 10, s);
    }
    s.append(digit_text(m % 10));
    assert(final(s)@ =~= old(s)@ + digits(m as nat));
}

/// The decimal text of `n`.
fn int_to_text(n: i64) -> (r: String)
    ensures
        r@ == decimal(n as int),
{
    let mut s = String::new();
    if n < 0 {
        s.append("-");
        proof { reveal_strlit("-"); }
        let mag: u64 = ((-(n + 1)) as u64) + 1;
        assert(mag as int == -(n as int));
        push_digits(mag, &mut s);
        assert(s@ =~= decimal(n as int));
    } else {
        push_digits(n as u64, &mut s);
        assert(s@ =~= decimal(n as int));
    }
    s
}

/// The text a cell reads as: empty when missing, decimal for integers.
pub open spec fn cell_text(c: Cell) -> Seq<char> {
    match c {
        Cell::Null => Seq::empty(),
        Cell::Int(n) => decimal(n as int),
        Cell::Text(s) => s@,
    }
}

/// `after` is `before` recast as text: an integer becomes its decimal text,
/// anything else is kept as it is.
pub open spec fn recast(before: Cell, after: Cell) -> bool {
    match before {
        Cell::Int(n) => after matches Cell::Text(s) && s@ == decimal(n as int),
        _ => after == before,
    }
}

/// Index of the first column named `name` at or after `i`, or -1.
pub open spec fn index_from(cols: Seq<Column>, name: Seq<char>, i: nat) -> int
    decreases cols.len() - i,
{
    if i >= cols.len() {
        -1
    } else if cols[i as int].name@ == name {
        i as int
    } else {
        index_from(cols, name, i + 1)
    }
}

/// Index of the first column named `name`, or -1 when there is none.
pub open spec fn column_index(cols: Seq<Column>, name: Seq<char>) -> int {
    index_from(cols, name, 0)
}

pub proof fn lemma_index_from(cols: Seq<Column>, name: Seq<char>, i: nat)
    ensures
        index_from(cols, name, i) == -1 || (i <= index_from(cols, name, i) < cols.len()
            && cols[index_from(cols, name, i)].name@ == name),
        index_from(cols, name, i) == -1 <==> forall|j: int|
            i <= j < cols.len() ==> cols[j].name@ != name,
    decreases cols.len() - i,
{
    if i < cols.len() {
        lemma_index_from(cols, name, i + 1);
    }
}

impl Cell {
    /// A copy of the cell.
    pub fn copy(&self) -> (r: Cell)
        ensures
            r == *self,
    {
        match self {
            Cell::Null => Cell::Null,
            Cell::Int(n) => Cell::Int(*n),
            Cell::Text(s) => Cell::Text(s.clone()),
        }
    }

    /// The text the cell reads as: empty when missing, decimal for integers.
    pub fn to_text(&self) -> (r: String)
        ensures
            r@ == cell_text(*self),
    {
        match self {
            Cell::Null => String::new(),
            Cell::Int(n) => int_to_text(*n),
            Cell::Text(s) => s.clone(),
        }
    }

    /// The cell recast as text.
    pub fn recast_to_text(&self) -> (r: Cell)
        ensures
            recast(*self, r),
    {
        match self {
            Cell::Int(n) => Cell::Text(int_to_text(*n)),
            _ => self.copy(),
        }
    }
}

impl Table {
    /// Every column holds one cell per row.
    pub open spec fn wf(&self) -> bool {
        forall|i: int| 0 <= i < self.columns@.len() ==> self.columns@[i].cells@.len() == self.rows
    }

    pub open spec fn index_of(&self, name: Seq<char>) -> int {
        column_index(self.columns@, name)
    }

    pub open spec fn has_column(&self, name: Seq<char>) -> bool {
        self.index_of(name) != -1
    }

    /// The cell of the first column named `name` at `row`.
    pub open spec fn cell_at(&self, name: Seq<char>, row: int) -> Cell {
        self.columns@[self.index_of(name)].cells@[row]
    }

    /// A table of `rows` rows and no columns yet.
    pub fn new(rows: usize) -> (r: Table)
        ensures
            r.wf(),
            r.rows == rows,
            r.columns@.len() == 0,
    {
        Table { rows, columns: Vec::new() }
    }

    /// Appends a column; refused, with the table unchanged, when it does not hold
    /// one cell per row.
    pub fn push_column(&mut self, name: String, cells: Vec<Cell>) -> (r: Result<(), IngestError>)
        requires
            old(self).wf(),
        ensures
            final(self).wf(),
            r is Ok <==> cells@.len() == old(self).rows,
            r is Ok ==> final(self).rows == old(self).rows && final(self).columns@
                == old(self).columns@.push(Column { name, cells }),
            r is Err ==> *final(self) == *old(self) && r == Err::<(), IngestError>(
                IngestError::Schema { column: name },
            ),
    {
        if cells.len() == self.rows {
            self.columns.push(Column { name, cells });
            Ok(())
        } else {
            Err(IngestError::Schema { column: name })
        }
    }

    /// Index of the first column named `name`.
    pub fn find_column(&self, name: &str) -> (r: Option<usize>)
        ensures
            r is None <==> !self.has_column(name@),
            r matches Some(i) ==> i as int == self.index_of(name@) && i < self.columns@.len()
                && self.columns@[i as int].name@ == name@,
    {
        let key = String::from_str(name);
        let mut i: usize = 0;
        while i < self.columns.len()
            invariant
                i <= self.columns@.len(),
                index_from(self.columns@, name@, 0) == index_from(self.columns@, name@, i as nat),
                key@ == name@,
            decreases self.columns@.len() - i,
        {
            if self.columns[i].name == key {
                proof { lemma_index_from(self.columns@, name@, i as nat); }
                return Some(i);
            }
            i += 1;
        }
        None
    }

    /// The table with the first column named `name` recast as text; `Schema`
    /// when there is no such column.
    pub fn coerce_to_text(&self, name: &str) -> (r: Result<Table, IngestError>)
        requires
            self.wf(),
        ensures
            r is Err <==> !self.has_column(name@),
            r matches Err(e) ==> e matches IngestError::Schema { column } && column@ == name@,
            r matches Ok(t) ==> t.wf() && t.rows == self.rows && t.columns@.len()
                == self.columns@.len() && forall|c: int|
                0 <= c < t.columns@.len() ==> {
                    &&& t.columns@[c].name@ == self.columns@[c].name@
                    &&& c != self.index_of(name@) ==> t.columns@[c].cells@ == self.columns@[c].cells@
                    &&& c == self.index_of(name@) ==> forall|row: int|
                        0 <= row < self.rows ==> recast(
                            self.columns@[c].cells@[row],
                            t.columns@[c].cells@[row],
                        )
                },
    {
        match self.find_column(name) {
            None => Err(IngestError::Schema { column: String::from_str(name) }),
            Some(target) => {
                let mut columns: Vec<Column> = Vec::new();
                let mut c: usize = 0;
                while c < self.columns.len()
                    invariant
                        self.wf(),
                        c <= self.columns@.len(),
                        target as int == self.index_of(name@),
                        columns@.len() == c,
                        forall|k: int| 0 <= k < c ==> {
                            &&& columns@[k].name@ == self.columns@[k].name@
                            &&& columns@[k].cells@.len() == self.rows
                            &&& k != target ==> columns@[k].cells@ == self.columns@[k].cells@
                            &&& k == target ==> forall|row: int|
                                0 <= row < self.rows ==> recast(
                                    self.columns@[k].cells@[row],
                                    columns@[k].cells@[row],
                                )
                        },
                    decreases self.columns@.len() - c,
                {
                    let src = &self.columns[c];
                    let mut cells: Vec<Cell> = Vec::new();
                    let mut row: usize = 0;
                    while row < src.cells.len()
                        invariant
                            row <= src.cells@.len(),
                            cells@.len() == row,
                            forall|j: int| 0 <= j < row ==> {
                                &&& c != target ==> cells@[j] == src.cells@[j]
                                &&& c == target ==> recast(src.cells@[j], cells@[j])
                            },
                        decreases src.cells@.len() - row,
                    {
                        if c == target {
                            cells.push(src.cells[row].recast_to_text());
                        } else {
                            cells.push(src.cells[row].copy());
                        }
                        row += 1;
                    }
                    let col = Column { name: src.name.clone(), cells };
                    proof {
                        if c != target {
                            assert(cells@ =~= src.cells@);
                        }
                    }
                    columns.push(col);
                    c += 1;
                }
                Ok(Table { rows: self.rows, columns })
            },
        }
    }
}

} // verus!
