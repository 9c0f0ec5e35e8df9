//! What is written is what is read. A record is written by binding values
//! to the placeholders of a statement and read from the positions of a row;
//! the two orders are fixed in different places. The laws here hold them
//! together: they say what a row reads as once the store has kept the bound
//! values in the columns that the statement names.

use vstd::prelude::*;
use crate::model::{
    DyncmcpConnection, DyncmcpConnectionView, SettingA2AServerParams, SettingA2AServerView,
    UpdateSettingA2AServerParams,
};
use crate::row::{connection_of_row, server_of_row};
use crate::statement::{
    connection_params, server_params, supplied_columns, supplied_values, supplies_nothing,
    ServerColumn,
};
use crate::error::RowError;
use crate::value::{flag_value, opt_text, CellView, ParamView};

verus! {

/// What a column holds after a value was bound to it.
pub open spec fn stored(value: ParamView) -> CellView {
    match value {
        ParamView::Null => CellView::Null,
        ParamView::Integer(i) => CellView::Integer(i),
        ParamView::Text(s) => CellView::Text(s),
    }
}

/// What a column holds for an optional text.
pub open spec fn stored_text(text: Option<Seq<char>>) -> CellView {
    match text {
        Some(s) => CellView::Text(s),
        None => CellView::Null,
    }
}

/// The position in a row of a column that a partial update can write.
pub open spec fn column_position(column: ServerColumn) -> int {
    match column {
        ServerColumn::Name => 1,
        ServerColumn::AgentCardUrl => 2,
        ServerColumn::AgentCardJson => 3,
        ServerColumn::Enabled => 4,
    }
}

/// The row of a remote-service record that was inserted with the `written`
/// parameters, was given `id` by the store, and carries the given times.
pub open spec fn inserted_server_row(
    id: int,
    written: Seq<ParamView>,
    created_at: Option<Seq<char>>,
    updated_at: Option<Seq<char>>,
) -> Seq<CellView> {
    seq![
        CellView::Integer(id),
        stored(written[0]),
        stored(written[1]),
        stored(written[2]),
        stored(written[3]),
        stored_text(created_at),
        stored_text(updated_at),
    ]
}

/// The row of a connection record that was written with the `written`
/// parameters and has the id `id`.
pub open spec fn written_connection_row(id: int, written: Seq<ParamView>) -> Seq<CellView> {
    seq![
        CellView::Integer(id),
        stored(written[0]),
        stored(written[1]),
        stored(written[2]),
        stored(written[3]),
    ]
}

/// A row after the given columns were set to the given values, one after
/// the other.
pub open spec fn assigned_row(
    row: Seq<CellView>,
    columns: Seq<ServerColumn>,
    values: Seq<ParamView>,
) -> Seq<CellView>
    decreases columns.len(),
{
    if columns.len() == 0 || values.len() != columns.len() {
        row
    } else {
        assigned_row(row, columns.drop_last(), values.drop_last()).update(
            column_position(columns.last()),
            stored(values.last()),
        )
    }
}

/// A row after a partial update: the supplied columns hold the supplied
/// values and the modification time is `now`.
pub open spec fn updated_server_row(
    row: Seq<CellView>,
    p: UpdateSettingA2AServerParams,
    now: Option<Seq<char>>,
) -> Seq<CellView> {
    assigned_row(row, supplied_columns(p), supplied_values(p)).update(6, stored_text(now))
}

/// A record that is inserted and read back is the inserted fields, with the
/// id that the store assigned: the insert binds its values in the order in
/// which a row is read.
pub proof fn lemma_inserted_server_reads_back(
    p: SettingA2AServerParams,
    id: int,
    created_at: Option<Seq<char>>,
    updated_at: Option<Seq<char>>,
)
    ensures
        server_of_row(inserted_server_row(id, server_params(p), created_at, updated_at)) == Ok::<
            SettingA2AServerView,
            RowError,
        >(
            SettingA2AServerView {
                id: Some(id),
                name: p.name@,
                agent_card_url: p.agent_card_url@,
                agent_card_json: opt_text(p.agent_card_json),
                enabled: p.enabled,
                created_at,
                updated_at,
            },
        ),
{
}

/// A connection record that is written and read back is the written fields,
/// with the id of its row: whatever the row held before, it now reads as
/// the latest write.
pub proof fn lemma_written_connection_reads_back(ac: DyncmcpConnection, id: int)
    ensures
        connection_of_row(written_connection_row(id, connection_params(ac))) == Ok::<
            DyncmcpConnectionView,
            RowError,
        >(
            DyncmcpConnectionView {
                id: Some(id),
                name: ac.name@,
                url: ac.url@,
                api_key: ac.api_key@,
                starred: ac.starred,
            },
        ),
{
}

/// A partial update changes the supplied fields and the modification time,
/// and nothing else: a record that is read back after it has each supplied
/// field as supplied and every other field, the id and the creation time
/// among them, as before.
pub proof fn lemma_update_changes_supplied_fields_only(
    row: Seq<CellView>,
    old_record: SettingA2AServerView,
    p: UpdateSettingA2AServerParams,
    now: Option<Seq<char>>,
)
    requires
        server_of_row(row) == Ok::<SettingA2AServerView, RowError>(old_record),
        !supplies_nothing(p),
    ensures
        server_of_row(updated_server_row(row, p, now)) == Ok::<SettingA2AServerView, RowError>(
            SettingA2AServerView {
                id: old_record.id,
                name: match p.name {
                    Some(s) => s@,
                    None => old_record.name,
                },
                agent_card_url: match p.agent_card_url {
                    Some(s) => s@,
                    None => old_record.agent_card_url,
                },
                agent_card_json: match p.agent_card_json {
                    Some(s) => Some(s@),
                    None => old_record.agent_card_json,
                },
                enabled: match p.enabled {
                    Some(b) => b,
                    None => old_record.enabled,
                },
                created_at: old_record.created_at,
                updated_at: now,
            },
        ),
{
    let columns = supplied_columns(p);
    let values = supplied_values(p);
    assert(values.len() == columns.len());
    let after = assigned_row(row, columns, values);
    lemma_assigned_row(row, columns, values);
    assert(row.len() >= 7);
    lemma_supplied(p);
    let fresh = updated_server_row(row, p, now);
    assert(fresh.len() == row.len());
    assert(fresh[0] == row[0]);
    assert(fresh[5] == row[5]);
    assert(fresh[6] == stored_text(now));
}

/// What the assignments of a partial update are: each supplied field once,
/// with its value, in the order in which the table declares the columns, and
/// no other column.
pub proof fn lemma_supplied(p: UpdateSettingA2AServerParams)
    ensures
        supplied_values(p).len() == supplied_columns(p).len(),
        forall|k: int|
            0 <= k < supplied_columns(p).len() ==> match (#[trigger] supplied_columns(p)[k]) {
                ServerColumn::Name => p.name is Some && supplied_values(p)[k] == ParamView::Text(
                    p.name->Some_0@,
                ),
                ServerColumn::AgentCardUrl => p.agent_card_url is Some && supplied_values(p)[k]
                    == ParamView::Text(p.agent_card_url->Some_0@),
                ServerColumn::AgentCardJson => p.agent_card_json is Some && supplied_values(p)[k]
                    == ParamView::Text(p.agent_card_json->Some_0@),
                ServerColumn::Enabled => p.enabled is Some && supplied_values(p)[k]
                    == ParamView::Integer(flag_value(p.enabled->Some_0)),
            },
        p.name is Some <==> supplied_columns(p).contains(ServerColumn::Name),
        p.agent_card_url is Some <==> supplied_columns(p).contains(ServerColumn::AgentCardUrl),
        p.agent_card_json is Some <==> supplied_columns(p).contains(ServerColumn::AgentCardJson),
        p.enabled is Some <==> supplied_columns(p).contains(ServerColumn::Enabled),
        supplied_columns(p).no_duplicates(),
        forall|j: int, k: int|
            0 <= j < k < supplied_columns(p).len() ==> column_position(supplied_columns(p)[j])
                < column_position(supplied_columns(p)[k]),
{
    let a = if p.name is Some { seq![ServerColumn::Name] } else { seq![] };
    let b = if p.agent_card_url is Some { seq![ServerColumn::AgentCardUrl] } else { seq![] };
    let c = if p.agent_card_json is Some { seq![ServerColumn::AgentCardJson] } else { seq![] };
    let d = if p.enabled is Some { seq![ServerColumn::Enabled] } else { seq![] };
    let columns = supplied_columns(p);
    assert(columns == a + b + c + d);
    if p.name is Some {
        assert(columns[0] == ServerColumn::Name);
    }
    if p.agent_card_url is Some {
        assert(columns[a.len() as int] == ServerColumn::AgentCardUrl);
    }
    if p.agent_card_json is Some {
        assert(columns[(a.len() + b.len()) as int] == ServerColumn::AgentCardJson);
    }
    if p.enabled is Some {
        assert(columns[(a.len() + b.len() + c.len()) as int] == ServerColumn::Enabled);
    }
}

/// What a row holds after assignments to distinct columns: each assigned
/// column its value, every other position what it held before.
pub proof fn lemma_assigned_row(
    row: Seq<CellView>,
    columns: Seq<ServerColumn>,
    values: Seq<ParamView>,
)
    requires
        values.len() == columns.len(),
        columns.no_duplicates(),
        row.len() >= 5,
    ensures
        assigned_row(row, columns, values).len() == row.len(),
        forall|k: int|
            0 <= k < columns.len() ==> assigned_row(row, columns, values)[column_position(
                #[trigger] columns[k],
            )] == stored(values[k]),
        forall|i: int|
            0 <= i < row.len() && (forall|k: int|
                0 <= k < columns.len() ==> column_position(#[trigger] columns[k]) != i)
                ==> #[trigger] assigned_row(row, columns, values)[i] == row[i],
    decreases columns.len(),
{
    if columns.len() > 0 {
        let init_c = columns.drop_last();
        let init_v = values.drop_last();
        assert(init_c.no_duplicates()) by {
            assert forall|i: int, j: int|
                0 <= i < init_c.len() && 0 <= j < init_c.len() && i != j implies init_c[i]
                != init_c[j] by {
                assert(init_c[i] == columns[i]);
                assert(init_c[j] == columns[j]);
            }
        }
        lemma_assigned_row(row, init_c, init_v);
        let before = assigned_row(row, init_c, init_v);
        let after = assigned_row(row, columns, values);
        assert(after == before.update(column_position(columns.last()), stored(values.last())));
        assert forall|k: int| 0 <= k < columns.len() implies after[column_position(
            #[trigger] columns[k],
        )] == stored(values[k]) by {
            if k < columns.len() - 1 {
                assert(init_c[k] == columns[k]);
                assert(init_v[k] == values[k]);
                assert(columns[k] != columns[columns.len() - 1]);
            }
        }
        assert forall|i: int|
            0 <= i < row.len() && (forall|k: int|
                0 <= k < columns.len() ==> column_position(#[trigger] columns[k]) != i) implies
            #[trigger] after[i] == row[i] by {
            assert(column_position(columns[columns.len() - 1]) != i);
            assert forall|k: int| 0 <= k < init_c.len() implies column_position(
                #[trigger] init_c[k],
            ) != i by {
                assert(init_c[k] == columns[k]);
            }
        }
    }
}

} // verus!
