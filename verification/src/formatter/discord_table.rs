//! A monospace table: column headers and pre-rendered cell rows, joined
//! with `|` separators and aligned to each column's width.

use vstd::prelude::*;
use crate::formatter::string_formatter::align;
use crate::formatter::string_formatter::align_seq;
use crate::formatter::string_formatter::StringAlignment;

verus! {

/// One column: header text, width in characters, and cell alignment.
#[derive(Debug)]
pub struct DiscordTableColumn {
    pub name: String,
    pub width: usize,
    pub alignment: StringAlignment,
}

impl DiscordTableColumn {
    pub fn new(name: &str, width: usize, alignment: StringAlignment) -> (r: DiscordTableColumn)
        ensures
            r.name@ == name@,
            r.width == width,
            r.alignment == alignment,
    {
        DiscordTableColumn { name: name.to_owned(), width, alignment }
    }
}

/// Cells joined with `|` separators.
pub open spec fn join_cells(cells: Seq<Seq<char>>) -> Seq<char>
    decreases cells.len(),
{
    if cells.len() == 0 {
        Seq::empty()
    } else if cells.len() == 1 {
        cells[0]
    } else {
        join_cells(cells.drop_last()) + seq!['|'] + cells.last()
    }
}

/// Every header, aligned to its column.
pub open spec fn aligned_names(cols: Seq<DiscordTableColumn>) -> Seq<Seq<char>> {
    Seq::new(cols.len(), |i: int| align_seq(cols[i].name@, cols[i].width as int, cols[i].alignment))
}

/// The header line: the joined headers between backticks, then a newline.
pub open spec fn header_seq(cols: Seq<DiscordTableColumn>) -> Seq<char> {
    seq!['`'] + join_cells(aligned_names(cols)) + seq!['`', '\n']
}

/// The cell of a row under column `j`; empty when the row is short.
pub open spec fn cell_of(row: Seq<Seq<char>>, j: int) -> Seq<char> {
    if 0 <= j < row.len() {
        row[j]
    } else {
        Seq::empty()
    }
}

/// Every cell of a row, aligned to its column.
pub open spec fn aligned_row(cols: Seq<DiscordTableColumn>, row: Seq<Seq<char>>) -> Seq<Seq<char>> {
    Seq::new(cols.len(), |j: int| align_seq(cell_of(row, j), cols[j].width as int, cols[j].alignment))
}

/// One body line: the joined cells of a row, then a newline.
pub open spec fn row_line_seq(cols: Seq<DiscordTableColumn>, row: Seq<Seq<char>>) -> Seq<char> {
    join_cells(aligned_row(cols, row)) + seq!['\n']
}

/// The whole table body, one line per row.
pub open spec fn body_seq(cols: Seq<DiscordTableColumn>, rows: Seq<Seq<Seq<char>>>) -> Seq<char>
    decreases rows.len(),
{
    if rows.len() == 0 {
        Seq::empty()
    } else {
        body_seq(cols, rows.drop_last()) + row_line_seq(cols, rows.last())
    }
}

/// A table of pre-rendered cell strings.
#[derive(Debug)]
pub struct DiscordTable {
    columns: Vec<DiscordTableColumn>,
    data_rows: Vec<Vec<String>>,
}

/// Copy of a row of cells, contents pinned down.
fn clone_row(row: &Vec<String>) -> (r: Vec<String>)
    ensures
        r@ =~= row@,
{
    let mut out: Vec<String> = Vec::new();
    let mut i: usize = 0;
    while i < row.len()
        invariant
            i <= row@.len(),
            out@ =~= row@.take(i as int),
        decreases row@.len() - i,
    {
        out.push(row[i].clone());
        proof {
            assert(row@.take(i as int + 1) =~= row@.take(i as int).push(row@[i as int]));
        }
        i = i + 1;
    }
    proof {
        assert(row@.take(row@.len() as int) =~= row@);
    }
    out
}

impl DiscordTable {
    pub fn new() -> (r: DiscordTable)
        ensures
            r.spec_columns().len() == 0,
            r.spec_rows().len() == 0,
    {
        DiscordTable { columns: Vec::new(), data_rows: Vec::new() }
    }

    pub closed spec fn spec_columns(&self) -> Seq<DiscordTableColumn> {
        self.columns@
    }

    pub closed spec fn spec_rows(&self) -> Seq<Seq<Seq<char>>> {
        self.data_rows.deep_view()
    }

    pub fn add_column(&mut self, col: DiscordTableColumn)
        ensures
            final(self).spec_columns() == old(self).spec_columns().push(col),
            final(self).spec_rows() == old(self).spec_rows(),
    {
        self.columns.push(col);
    }

    /// Append copies of the given rows of cells.
    pub fn add_data_rows(&mut self, rows: &Vec<Vec<String>>)
        ensures
            final(self).spec_columns() == old(self).spec_columns(),
            final(self).spec_rows() =~= old(self).spec_rows() + rows.deep_view(),
    {
        let mut i: usize = 0;
        while i < rows.len()
            invariant
                i <= rows@.len(),
                self.columns@ == old(self).columns@,
                self.data_rows.deep_view() =~= old(self).data_rows.deep_view()
                    + rows.deep_view().take(i as int),
            decreases rows@.len() - i,
        {
            let row = clone_row(&rows[i]);
            proof {
                assert(rows.deep_view()[i as int] == rows@[i as int].deep_view());
                assert(row.deep_view() =~= rows.deep_view()[i as int]);
            }
            let ghost pre_rows = self.data_rows@;
            let ghost pre_dv = self.data_rows.deep_view();
            self.data_rows.push(row);
            proof {
                let dv = rows.deep_view();
                assert(dv.take(i as int + 1) =~= dv.take(i as int).push(dv[i as int]));
                assert forall|k: int| 0 <= k < pre_rows.len() implies #[trigger] self
                    .data_rows
                    .deep_view()[k] == pre_dv[k] by {
                    assert(self.data_rows@[k] == pre_rows[k]);
                }
                assert(self.data_rows.deep_view()[pre_rows.len() as int] == row.deep_view());
                assert(self.data_rows.deep_view() =~= pre_dv.push(row.deep_view()));
                assert(self.data_rows.deep_view() =~= old(self).data_rows.deep_view() + dv.take(
                    i as int + 1,
                ));
            }
            i = i + 1;
        }
        proof {
            assert(rows.deep_view().take(rows@.len() as int) =~= rows.deep_view());
        }
    }

    pub fn columns(&self) -> (r: &Vec<DiscordTableColumn>)
        ensures
            r@ == self.spec_columns(),
    {
        &self.columns
    }

    pub fn data_rows(&self) -> (r: &Vec<Vec<String>>)
        ensures
            r.deep_view() == self.spec_rows(),
    {
        &self.data_rows
    }

    /// Join all cells of one slice of text cells, aligned per column.
    fn joined_line(&self, row: &Vec<String>) -> (r: String)
        ensures
            r@ == join_cells(aligned_row(self.spec_columns(), row.deep_view())),
    {
        let mut out = String::new();
        let mut j: usize = 0;
        proof {
            assert(aligned_row(self.spec_columns(), row.deep_view()).take(0int)
                =~= Seq::<Seq<char>>::empty());
        }
        while j < self.columns.len()
            invariant
                j <= self.columns@.len(),
                out@ == join_cells(aligned_row(self.spec_columns(), row.deep_view()).take(j as int)),
            decreases self.columns@.len() - j,
        {
            let cell: String = if j < row.len() {
                align(row[j].as_str(), self.columns[j].width, self.columns[j].alignment)
            } else {
                align("", self.columns[j].width, self.columns[j].alignment)
            };
            proof {
                reveal_strlit("");
                assert(""@ =~= Seq::<char>::empty());
                assert(cell@ == aligned_row(self.spec_columns(), row.deep_view())[j as int]);
            }
            if j > 0 {
                proof {
                    reveal_strlit("|");
                }
                out.append("|");
            }
            out.append(cell.as_str());
            proof {
                let cells = aligned_row(self.spec_columns(), row.deep_view());
                assert(cells.take(j as int + 1).drop_last() =~= cells.take(j as int));
                assert(cells.take(j as int + 1).last() == cells[j as int]);
                assert(out@ =~= join_cells(cells.take(j as int + 1)));
            }
            j = j + 1;
        }
        proof {
            let cells = aligned_row(self.spec_columns(), row.deep_view());
            assert(cells.take(cells.len() as int) =~= cells);
        }
        out
    }

    /// The header line of the table.
    pub fn get_table_header(&self) -> (r: String)
        ensures
            r@ == header_seq(self.spec_columns()),
    {
        let mut out = String::new();
        proof {
            reveal_strlit("`");
            reveal_strlit("`\n");
        }
        out.append("`");
        let mut j: usize = 0;
        proof {
            assert(aligned_names(self.spec_columns()).take(0int) =~= Seq::<Seq<char>>::empty());
        }
        while j < self.columns.len()
            invariant
                j <= self.columns@.len(),
                out@ == seq!['`'] + join_cells(aligned_names(self.spec_columns()).take(j as int)),
            decreases self.columns@.len() - j,
        {
            let cell = align(
                self.columns[j].name.as_str(),
                self.columns[j].width,
                self.columns[j].alignment,
            );
            proof {
                assert(cell@ == aligned_names(self.spec_columns())[j as int]);
            }
            if j > 0 {
                proof {
                    reveal_strlit("|");
                }
                out.append("|");
            }
            out.append(cell.as_str());
            proof {
                let cells = aligned_names(self.spec_columns());
                assert(cells.take(j as int + 1).drop_last() =~= cells.take(j as int));
                assert(cells.take(j as int + 1).last() == cells[j as int]);
                assert(out@ =~= seq!['`'] + join_cells(cells.take(j as int + 1)));
            }
            j = j + 1;
        }
        out.append("`\n");
        proof {
            let cells = aligned_names(self.spec_columns());
            assert(cells.take(cells.len() as int) =~= cells);
            assert(out@ =~= header_seq(self.spec_columns()));
        }
        out
    }

    /// The body of the table, one line per data row.
    pub fn get_table_body(&self) -> (r: String)
        ensures
            r@ == body_seq(self.spec_columns(), self.spec_rows()),
    {
        let mut out = String::new();
        let mut i: usize = 0;
        proof {
            assert(self.spec_rows().take(0int) =~= Seq::<Seq<Seq<char>>>::empty());
        }
        while i < self.data_rows.len()
            invariant
                i <= self.data_rows@.len(),
                self.spec_rows().len() == self.data_rows@.len(),
                out@ == body_seq(self.spec_columns(), self.spec_rows().take(i as int)),
            decreases self.data_rows@.len() - i,
        {
            let line = self.joined_line(&self.data_rows[i]);
            out.append(line.as_str());
            proof {
                reveal_strlit("\n");
            }
            out.append("\n");
            proof {
                let rows = self.spec_rows();
                assert(rows.take(i as int + 1).drop_last() =~= rows.take(i as int));
                assert(rows.take(i as int + 1).last() == rows[i as int]);
                assert(rows[i as int] == self.data_rows@[i as int].deep_view());
                assert(out@ =~= body_seq(self.spec_columns(), rows.take(i as int + 1)));
            }
            i = i + 1;
        }
        proof {
            assert(self.spec_rows().take(self.spec_rows().len() as int) =~= self.spec_rows());
        }
        out
    }
}

impl Default for DiscordTable {
    fn default() -> (r: Self)
        ensures
            r.spec_columns().len() == 0,
            r.spec_rows().len() == 0,
    {
        DiscordTable::new()
    }
}

} // verus!
