//! Plain values that cross the boundary to the store: what is bound to a
//! statement's placeholders, and what a result row holds in each column.

use vstd::prelude::*;

verus! {

/// A bound parameter as a mathematical value.
pub enum ParamView {
    Null,
    Integer(int),
    Text(Seq<char>),
}

/// A value bound to one placeholder of a statement.
#[derive(Debug, Clone, PartialEq, Eq)]
pub enum Param {
    Null,
    Integer(i64),
    Text(String),
}

impl View for Param {
    type V = ParamView;

    open spec fn view(&self) -> ParamView {
        match *self {
            Param::Null => ParamView::Null,
            Param::Integer(i) => ParamView::Integer(i as int),
            Param::Text(s) => ParamView::Text(s@),
        }
    }
}

impl Param {
    /// A parameter that binds the same value.
    pub fn duplicate(&self) -> (r: Param)
        ensures
            r@ == self@,
    {
        match self {
            Param::Null => Param::Null,
            Param::Integer(i) => Param::Integer(*i),
            Param::Text(s) => Param::Text(s.clone()),
        }
    }
}

/// The parameters of a statement, each taken by its view.
pub open spec fn params_view(params: Seq<Param>) -> Seq<ParamView> {
    params.map_values(|p: Param| p@)
}

/// One column of a result row as a mathematical value. A real number and a
/// blob stand for themselves only: no record column reads either.
pub enum CellView {
    Null,
    Integer(int),
    Real,
    Text(Seq<char>),
    Blob,
    /// Text that is not valid UTF-8. A row that holds it cannot be read, so
    /// no `Cell` has this view.
    Undecodable,
}

/// Whether a row has a column at a position that can be read: one that
/// does not hold text which is not valid UTF-8.
pub open spec fn readable_at(cells: Seq<CellView>, index: int) -> bool {
    0 <= index < cells.len() && !(cells[index] is Undecodable)
}

/// Whether every column of a row can be read: none holds text that is not
/// valid UTF-8.
pub open spec fn readable(cells: Seq<CellView>) -> bool {
    forall|i: int| 0 <= i < cells.len() ==> !(#[trigger] cells[i] is Undecodable)
}

/// One column of a result row.
#[derive(Debug, Clone, PartialEq, Eq)]
pub enum Cell {
    Null,
    Integer(i64),
    Real,
    Text(String),
    Blob,
}

impl View for Cell {
    type V = CellView;

    open spec fn view(&self) -> CellView {
        match *self {
            Cell::Null => CellView::Null,
            Cell::Integer(i) => CellView::Integer(i as int),
            Cell::Real => CellView::Real,
            Cell::Text(s) => CellView::Text(s@),
            Cell::Blob => CellView::Blob,
        }
    }
}

/// A result row, each column taken by its view.
pub open spec fn cells_view(cells: Seq<Cell>) -> Seq<CellView> {
    cells.map_values(|c: Cell| c@)
}

/// A result set, each row taken by its view.
pub open spec fn rows_view(rows: Seq<Vec<Cell>>) -> Seq<Seq<CellView>> {
    rows.map_values(|r: Vec<Cell>| cells_view(r@))
}

/// The view of an optional text.
pub open spec fn opt_text(text: Option<String>) -> Option<Seq<char>> {
    match text {
        Some(s) => Some(s@),
        None => None,
    }
}

/// The integer the store keeps for a flag.
pub open spec fn flag_value(flag: bool) -> int {
    if flag {
        1
    } else {
        0
    }
}

/// The value bound for an optional text: NULL where there is none.
pub open spec fn opt_text_value(text: Option<String>) -> ParamView {
    match text {
        Some(s) => ParamView::Text(s@),
        None => ParamView::Null,
    }
}

/// The parameter that binds a text.
pub fn text_param(text: &String) -> (p: Param)
    ensures
        p@ == ParamView::Text(text@),
{
    Param::Text(text.clone())
}

/// The parameter that binds a flag: 1 for a set flag, 0 for a cleared one.
pub fn flag_param(flag: bool) -> (p: Param)
    ensures
        p@ == ParamView::Integer(flag_value(flag)),
{
    if flag {
        Param::Integer(1)
    } else {
        Param::Integer(0)
    }
}

/// The parameter that binds an optional text: NULL where there is none.
pub fn opt_text_param(text: &Option<String>) -> (p: Param)
    ensures
        p@ == opt_text_value(*text),
{
    match text {
        Some(s) => Param::Text(s.clone()),
        None => Param::Null,
    }
}

} // verus!
