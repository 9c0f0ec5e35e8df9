//! Reading typed fields out of a result row. A field is read from a fixed
//! position; the position and the type expected there are the contract
//! between the table's declared columns and the record.

use vstd::prelude::*;
use crate::error::RowError;
use crate::model::{DyncmcpConnectionView, SettingA2AServerView};
use crate::value::{cells_view, Cell, CellView};

verus! {

/// The integer at a position of a row.
pub open spec fn integer_at(cells: Seq<CellView>, index: usize) -> Result<int, RowError> {
    if index >= cells.len() {
        Err(RowError::MissingColumn(index))
    } else {
        match cells[index as int] {
            CellView::Integer(v) => Ok(v),
            _ => Err(RowError::WrongType(index)),
        }
    }
}

/// The flag at a position of a row: an integer of 32 bits, set unless zero.
pub open spec fn flag_at(cells: Seq<CellView>, index: usize) -> Result<bool, RowError> {
    if index >= cells.len() {
        Err(RowError::MissingColumn(index))
    } else {
        match cells[index as int] {
            CellView::Integer(v) => if i32::MIN <= v <= i32::MAX {
                Ok(v != 0)
            } else {
                Err(RowError::OutOfRange(index))
            },
            _ => Err(RowError::WrongType(index)),
        }
    }
}

/// The text at a position of a row.
pub open spec fn text_at(cells: Seq<CellView>, index: usize) -> Result<Seq<char>, RowError> {
    if index >= cells.len() {
        Err(RowError::MissingColumn(index))
    } else {
        match cells[index as int] {
            CellView::Text(s) => Ok(s),
            _ => Err(RowError::WrongType(index)),
        }
    }
}

/// The text at a position of a row, or none where the column is NULL.
pub open spec fn opt_text_at(cells: Seq<CellView>, index: usize) -> Result<
    Option<Seq<char>>,
    RowError,
> {
    if index >= cells.len() {
        Err(RowError::MissingColumn(index))
    } else {
        match cells[index as int] {
            CellView::Null => Ok(None),
            CellView::Text(s) => Ok(Some(s)),
            _ => Err(RowError::WrongType(index)),
        }
    }
}

/// Reads the integer at a position of a row.
pub fn read_integer(cells: &Vec<Cell>, index: usize) -> (r: Result<i64, RowError>)
    ensures
        match r {
            Ok(v) => integer_at(cells_view(cells@), index) == Ok::<int, RowError>(v as int),
            Err(e) => integer_at(cells_view(cells@), index) == Err::<int, RowError>(e),
        },
{
    if index >= cells.len() {
        return Err(RowError::MissingColumn(index));
    }
    match &cells[index] {
        Cell::Integer(v) => Ok(*v),
        _ => Err(RowError::WrongType(index)),
    }
}

/// Reads the flag at a position of a row.
pub fn read_flag(cells: &Vec<Cell>, index: usize) -> (r: Result<bool, RowError>)
    ensures
        r == flag_at(cells_view(cells@), index),
{
    if index >= cells.len() {
        return Err(RowError::MissingColumn(index));
    }
    match &cells[index] {
        Cell::Integer(v) => {
            if -2147483648 <= *v && *v <= 2147483647 {
                Ok(*v != 0)
            } else {
                Err(RowError::OutOfRange(index))
            }
        },
        _ => Err(RowError::WrongType(index)),
    }
}

/// Reads the text at a position of a row.
pub fn read_text(cells: &Vec<Cell>, index: usize) -> (r: Result<String, RowError>)
    ensures
        match r {
            Ok(s) => text_at(cells_view(cells@), index) == Ok::<Seq<char>, RowError>(s@),
            Err(e) => text_at(cells_view(cells@), index) == Err::<Seq<char>, RowError>(e),
        },
{
    if index >= cells.len() {
        return Err(RowError::MissingColumn(index));
    }
    match &cells[index] {
        Cell::Text(s) => Ok(s.clone()),
        _ => Err(RowError::WrongType(index)),
    }
}

/// Reads the text at a position of a row, or none where the column is NULL.
pub fn read_opt_text(cells: &Vec<Cell>, index: usize) -> (r: Result<Option<String>, RowError>)
    ensures
        match r {
            Ok(Some(s)) => opt_text_at(cells_view(cells@), index) == Ok::<
                Option<Seq<char>>,
                RowError,
            >(Some(s@)),
            Ok(None) => opt_text_at(cells_view(cells@), index) == Ok::<Option<Seq<char>>, RowError>(
                None,
            ),
            Err(e) => opt_text_at(cells_view(cells@), index) == Err::<Option<Seq<char>>, RowError>(
                e,
            ),
        },
{
    if index >= cells.len() {
        return Err(RowError::MissingColumn(index));
    }
    match &cells[index] {
        Cell::Null => Ok(None),
        Cell::Text(s) => Ok(Some(s.clone())),
        _ => Err(RowError::WrongType(index)),
    }
}

/// The remote-service record that a row holds: id, name, natural key,
/// payload, flag, creation time and modification time, in this order. Where
/// several columns do not fit, the first of them gives the error.
pub open spec fn server_of_row(cells: Seq<CellView>) -> Result<SettingA2AServerView, RowError> {
    if integer_at(cells, 0) is Err {
        Err(integer_at(cells, 0)->Err_0)
    } else if text_at(cells, 1) is Err {
        Err(text_at(cells, 1)->Err_0)
    } else if text_at(cells, 2) is Err {
        Err(text_at(cells, 2)->Err_0)
    } else if opt_text_at(cells, 3) is Err {
        Err(opt_text_at(cells, 3)->Err_0)
    } else if flag_at(cells, 4) is Err {
        Err(flag_at(cells, 4)->Err_0)
    } else if opt_text_at(cells, 5) is Err {
        Err(opt_text_at(cells, 5)->Err_0)
    } else if opt_text_at(cells, 6) is Err {
        Err(opt_text_at(cells, 6)->Err_0)
    } else {
        Ok(
            SettingA2AServerView {
                id: Some(integer_at(cells, 0)->Ok_0),
                name: text_at(cells, 1)->Ok_0,
                agent_card_url: text_at(cells, 2)->Ok_0,
                agent_card_json: opt_text_at(cells, 3)->Ok_0,
                enabled: flag_at(cells, 4)->Ok_0,
                created_at: opt_text_at(cells, 5)->Ok_0,
                updated_at: opt_text_at(cells, 6)->Ok_0,
            },
        )
    }
}

/// The connection record that a row holds: id, name, natural key, payload
/// and flag, in this order. Where several columns do not fit, the first of
/// them gives the error.
pub open spec fn connection_of_row(cells: Seq<CellView>) -> Result<
    DyncmcpConnectionView,
    RowError,
> {
    if integer_at(cells, 0) is Err {
        Err(integer_at(cells, 0)->Err_0)
    } else if text_at(cells, 1) is Err {
        Err(text_at(cells, 1)->Err_0)
    } else if text_at(cells, 2) is Err {
        Err(text_at(cells, 2)->Err_0)
    } else if text_at(cells, 3) is Err {
        Err(text_at(cells, 3)->Err_0)
    } else if flag_at(cells, 4) is Err {
        Err(flag_at(cells, 4)->Err_0)
    } else {
        Ok(
            DyncmcpConnectionView {
                id: Some(integer_at(cells, 0)->Ok_0),
                name: text_at(cells, 1)->Ok_0,
                url: text_at(cells, 2)->Ok_0,
                api_key: text_at(cells, 3)->Ok_0,
                starred: flag_at(cells, 4)->Ok_0,
            },
        )
    }
}

/// The id that the first row of a result holds in its first column, or none
/// where the result is empty.
pub open spec fn first_id(rows: Seq<Seq<CellView>>) -> Result<Option<int>, RowError> {
    if rows.len() == 0 {
        Ok(None)
    } else {
        match integer_at(rows[0], 0) {
            Ok(id) => Ok(Some(id)),
            Err(e) => Err(e),
        }
    }
}

/// Reads the id that the first row of a result holds in its first column.
pub fn read_first_id(rows: &Vec<Vec<Cell>>) -> (r: Result<Option<i64>, RowError>)
    ensures
        match r {
            Ok(Some(id)) => first_id(crate::value::rows_view(rows@)) == Ok::<
                Option<int>,
                RowError,
            >(Some(id as int)),
            Ok(None) => first_id(crate::value::rows_view(rows@)) == Ok::<Option<int>, RowError>(
                None,
            ),
            Err(e) => first_id(crate::value::rows_view(rows@)) == Err::<Option<int>, RowError>(e),
        },
{
    if rows.len() == 0 {
        return Ok(None);
    }
    match read_integer(&rows[0], 0) {
        Ok(id) => Ok(Some(id)),
        Err(e) => Err(e),
    }
}

} // verus!
