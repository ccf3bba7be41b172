//! Two small guest components, as they are packaged with the bridge for
//! trying it out, and the application that bundles them.
//!
//! A guest exports one entry point. It is handed the parameter row and
//! returns the row that it wants merged back, or nothing.

use vstd::prelude::*;
use vstd::string::*;
use crate::run::App;
use crate::text::str_eq;
use crate::value::{Cell, CellView, DbValue, DbValueView, Row};

verus! {

/// The entry point that every guest component exports.
pub trait SpinPgEvent {
    fn handle_pg_event(row: Row) -> Option<Row>;
}

/// The names of a row's cells, in order.
pub open spec fn spec_cell_names(row: Seq<CellView>) -> Seq<Seq<char>> {
    Seq::new(row.len(), |i: int| row[i].name)
}

/// The row with the string of its first cell called `column` set between
/// `prefix` and `suffix`; nothing where the row has no such cell or that
/// cell holds no string.
pub open spec fn spec_embellish(
    row: Seq<CellView>,
    column: Seq<char>,
    prefix: Seq<char>,
    suffix: Seq<char>,
) -> Option<Seq<CellView>> {
    match spec_cell_names(row).index_of_first(column) {
        Some(i) => match row[i].value {
            DbValueView::Str(orig) => Some(
                row.update(
                    i,
                    CellView { name: row[i].name, value: DbValueView::Str(prefix + orig + suffix) },
                ),
            ),
            _ => None,
        },
        None => None,
    }
}

/// The model of what a guest returns.
pub open spec fn returned_view(res: Option<Row>) -> Option<Seq<CellView>> {
    match res {
        Some(row) => Some(row@),
        None => None,
    }
}

/// Finds the first cell called `name`.
fn position(row: &Row, name: &str) -> (found: Option<usize>)
    ensures
        match found {
            Some(i) => spec_cell_names(row@).index_of_first(name@) == Some(i as int) && i
                < row.columns.len(),
            None => spec_cell_names(row@).index_of_first(name@) is None,
        },
{
    let mut i: usize = 0;
    while i < row.columns.len()
        invariant
            i <= row.columns.len(),
            forall|j: int| 0 <= j < i ==> spec_cell_names(row@)[j] != name@,
        decreases row.columns.len() - i,
    {
        if str_eq(row.columns[i].name.as_str(), name) {
            proof {
                let names = spec_cell_names(row@);
                names.index_of_first_ensures(name@);
                assert(names[i as int] == name@);
            }
            return Some(i);
        }
        i += 1;
    }
    proof {
        spec_cell_names(row@).index_of_first_ensures(name@);
    }
    None
}

/// Sets the string of the first cell called `column` between `prefix`
/// and `suffix`.
fn embellish(row: Row, column: &str, prefix: &str, suffix: &str) -> (res: Option<Row>)
    ensures
        returned_view(res) == spec_embellish(row@, column@, prefix@, suffix@),
{
    match position(&row, column) {
        Some(index) => {
            let mut new = row;
            let cell = &new.columns[index];
            match &cell.value {
                DbValue::Str(orig) => {
                    let mut text = String::from_str(prefix);
                    text.append(orig.as_str());
                    text.append(suffix);
                    let changed = Cell { name: cell.name.clone(), value: DbValue::Str(text) };
                    new.columns.set(index, changed);
                    Some(new)
                },
                _ => None,
            }
        },
        None => None,
    }
}

/// A guest that makes more of a title.
pub struct Titler;

impl SpinPgEvent for Titler {
    /// Puts `MOAR ` before the string of the first `title` cell and
    /// returns the whole row; returns nothing where there is no such cell
    /// or it holds no string.
    fn handle_pg_event(row: Row) -> (res: Option<Row>)
        ensures
            returned_view(res) == spec_embellish(row@, "title"@, "MOAR "@, Seq::empty()),
    {
        proof {
            reveal_strlit("");
        }
        embellish(row, "title", "MOAR ", "")
    }
}

/// A guest that praises a description.
pub struct Bestseller;

impl SpinPgEvent for Bestseller {
    /// Puts ` - now a the Sunday Times bestseller` behind the string of
    /// the first `description` cell and returns the whole row; returns
    /// nothing where there is no such cell or it holds no string.
    fn handle_pg_event(row: Row) -> (res: Option<Row>)
        ensures
            returned_view(res) == spec_embellish(
                row@,
                "description"@,
                Seq::empty(),
                " - now a the Sunday Times bestseller"@,
            ),
    {
        proof {
            reveal_strlit("");
        }
        embellish(row, "description", "", " - now a the Sunday Times bestseller")
    }
}

/// The application that bundles the two guests, and the directory in
/// which the engine keeps its state for it.
pub fn sample_app() -> (app: App)
    ensures
        app.spec_reference() == "ghcr.io/itowlson/pg-app-example:v3"@,
        app.spec_state_dir() == "/home/ivan/testing/pgtest/STATEYWATEY"@,
{
    App::new("ghcr.io/itowlson/pg-app-example:v3", "/home/ivan/testing/pgtest/STATEYWATEY")
}

} // verus!
