//! The neutral value model that crosses the host/guest boundary.

use vstd::prelude::*;

verus! {

/// One cell value as the guest sees it.
#[derive(Debug, PartialEq, Eq)]
pub enum DbValue {
    Boolean(bool),
    Str(String),
    DbNull,
    /// Marker for a host column type that the bridge does not marshal.
    Unsupported,
}

/// Mathematical model of a [`DbValue`].
pub enum DbValueView {
    Boolean(bool),
    Str(Seq<char>),
    DbNull,
    Unsupported,
}

impl View for DbValue {
    type V = DbValueView;

    open spec fn view(&self) -> DbValueView {
        match self {
            DbValue::Boolean(b) => DbValueView::Boolean(*b),
            DbValue::Str(s) => DbValueView::Str(s@),
            DbValue::DbNull => DbValueView::DbNull,
            DbValue::Unsupported => DbValueView::Unsupported,
        }
    }
}

impl Clone for DbValue {
    fn clone(&self) -> (res: Self)
        ensures
            res@ == self@,
    {
        match self {
            DbValue::Boolean(b) => DbValue::Boolean(*b),
            DbValue::Str(s) => DbValue::Str(s.clone()),
            DbValue::DbNull => DbValue::DbNull,
            DbValue::Unsupported => DbValue::Unsupported,
        }
    }
}

/// A named cell of a row.
#[derive(Debug, PartialEq, Eq)]
pub struct Cell {
    pub name: String,
    pub value: DbValue,
}

/// Mathematical model of a [`Cell`].
pub struct CellView {
    pub name: Seq<char>,
    pub value: DbValueView,
}

impl View for Cell {
    type V = CellView;

    open spec fn view(&self) -> CellView {
        CellView { name: self.name@, value: self.value@ }
    }
}

impl Clone for Cell {
    fn clone(&self) -> (res: Self)
        ensures
            res@ == self@,
    {
        Cell { name: self.name.clone(), value: self.value.clone() }
    }
}

impl Cell {
    /// A cell called `name` that holds `value`.
    pub fn new(name: &str, value: DbValue) -> (res: Self)
        ensures
            res@ == (CellView { name: name@, value: value@ }),
    {
        Cell { name: name.to_owned(), value }
    }
}

/// An ordered sequence of cells, in host column order for a parameter row
/// and in the guest's order for a result row.
#[derive(Debug, PartialEq, Eq)]
pub struct Row {
    pub columns: Vec<Cell>,
}

impl View for Row {
    type V = Seq<CellView>;

    open spec fn view(&self) -> Seq<CellView> {
        Seq::new(self.columns@.len(), |i: int| self.columns@[i]@)
    }
}

impl Clone for Row {
    fn clone(&self) -> (res: Self)
        ensures
            res@ == self@,
    {
        let mut columns: Vec<Cell> = Vec::new();
        let mut i: usize = 0;
        while i < self.columns.len()
            invariant
                i <= self.columns.len(),
                columns@.len() == i,
                forall|j: int| 0 <= j < i ==> columns@[j]@ == self.columns@[j]@,
            decreases self.columns.len() - i,
        {
            columns.push(self.columns[i].clone());
            i += 1;
        }
        let res = Row { columns };
        res
    }
}

} // verus!
