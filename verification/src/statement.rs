//! Statements: the text handed to the store and the values bound to its
//! placeholders. Values never enter the text.

use vstd::prelude::*;
use vstd::string::*;
use crate::model::{DyncmcpConnection, SettingA2AServerParams, UpdateSettingA2AServerParams};
use crate::placeholders::{
    lemma_text_create_connection_table,
    lemma_text_create_connection_url_index,
    lemma_text_create_server_enabled_index,
    lemma_text_create_server_name_index,
    lemma_text_create_server_table,
    lemma_text_delete_server_by_id,
    lemma_text_delete_server_by_name,
    lemma_text_disable_other_servers,
    lemma_text_insert_connection,
    lemma_text_insert_server,
    lemma_text_select_connection_by_url,
    lemma_text_select_connection_id,
    lemma_text_select_connections,
    lemma_text_select_enabled_servers,
    lemma_text_select_server_by_id,
    lemma_text_select_server_by_name,
    lemma_text_select_servers,
    lemma_text_toggle_server,
    lemma_text_upsert_connection,
    lemma_update_placeholders,
    placeholders,
};
use crate::value::{
    flag_param, flag_value, opt_text_param, opt_text_value, params_view, text_param, Param,
    ParamView,
};

verus! {

/// A statement ready to be executed.
#[derive(Debug, Clone, PartialEq, Eq)]
pub struct SqlStatement {
    /// The text, with one `?` for each parameter.
    pub sql: String,
    /// The values bound to the placeholders, in the order of the text.
    pub params: Vec<Param>,
}

/// A statement as a mathematical value.
pub struct SqlStatementView {
    pub sql: Seq<char>,
    pub params: Seq<ParamView>,
}

impl View for SqlStatement {
    type V = SqlStatementView;

    open spec fn view(&self) -> SqlStatementView {
        SqlStatementView { sql: self.sql@, params: params_view(self.params@) }
    }
}

impl SqlStatementView {
    /// Whether the statement binds one value for each placeholder of its
    /// text.
    pub open spec fn well_formed(self) -> bool {
        placeholders(self.sql) == self.params.len()
    }
}

/// The columns of a remote-service record that a partial update can write,
/// in the order in which the table declares them.
#[derive(Debug, Clone, Copy, PartialEq, Eq, Structural)]
pub enum ServerColumn {
    Name,
    AgentCardUrl,
    AgentCardJson,
    Enabled,
}

/// The name of a column in the table.
pub open spec fn column_name(column: ServerColumn) -> Seq<char> {
    match column {
        ServerColumn::Name => "name"@,
        ServerColumn::AgentCardUrl => "agent_card_url"@,
        ServerColumn::AgentCardJson => "agent_card_json"@,
        ServerColumn::Enabled => "enabled"@,
    }
}

impl ServerColumn {
    /// The name of the column in the table.
    pub fn name(self) -> (r: &'static str)
        ensures
            r@ == column_name(self),
    {
        match self {
            ServerColumn::Name => "name",
            ServerColumn::AgentCardUrl => "agent_card_url",
            ServerColumn::AgentCardJson => "agent_card_json",
            ServerColumn::Enabled => "enabled",
        }
    }
}

/// One column of a partial update with the value it is set to.
#[derive(Debug, Clone, PartialEq, Eq)]
pub struct Assignment {
    pub column: ServerColumn,
    pub value: Param,
}

/// The columns of a list of assignments.
pub open spec fn assigned_columns(assignments: Seq<Assignment>) -> Seq<ServerColumn> {
    assignments.map_values(|a: Assignment| a.column)
}

/// The values of a list of assignments.
pub open spec fn assigned_values(assignments: Seq<Assignment>) -> Seq<ParamView> {
    assignments.map_values(|a: Assignment| a.value@)
}

/// Whether a partial update supplies no field.
pub open spec fn supplies_nothing(p: UpdateSettingA2AServerParams) -> bool {
    p.name is None && p.agent_card_url is None && p.agent_card_json is None && p.enabled is None
}

/// The columns that a partial update supplies, in declaration order.
pub open spec fn supplied_columns(p: UpdateSettingA2AServerParams) -> Seq<ServerColumn> {
    (if p.name is Some {
        seq![ServerColumn::Name]
    } else {
        seq![]
    }) + (if p.agent_card_url is Some {
        seq![ServerColumn::AgentCardUrl]
    } else {
        seq![]
    }) + (if p.agent_card_json is Some {
        seq![ServerColumn::AgentCardJson]
    } else {
        seq![]
    }) + (if p.enabled is Some {
        seq![ServerColumn::Enabled]
    } else {
        seq![]
    })
}

/// The values that a partial update supplies, in declaration order.
pub open spec fn supplied_values(p: UpdateSettingA2AServerParams) -> Seq<ParamView> {
    (match p.name {
        Some(s) => seq![ParamView::Text(s@)],
        None => seq![],
    }) + (match p.agent_card_url {
        Some(s) => seq![ParamView::Text(s@)],
        None => seq![],
    }) + (match p.agent_card_json {
        Some(s) => seq![ParamView::Text(s@)],
        None => seq![],
    }) + (match p.enabled {
        Some(b) => seq![ParamView::Integer(flag_value(b))],
        None => seq![],
    })
}

/// The assignments of a partial update: one for each supplied field, in
/// declaration order.
pub fn supplied_assignments(p: &UpdateSettingA2AServerParams) -> (r: Vec<Assignment>)
    ensures
        assigned_columns(r@) == supplied_columns(*p),
        assigned_values(r@) == supplied_values(*p),
{
    let mut out: Vec<Assignment> = Vec::new();
    assert(assigned_columns(out@) =~= seq![]);
    assert(assigned_values(out@) =~= seq![]);
    if let Some(name) = &p.name {
        let ghost before = out@;
        out.push(Assignment { column: ServerColumn::Name, value: text_param(name) });
        assert(assigned_columns(out@) =~= assigned_columns(before) + seq![ServerColumn::Name]);
        assert(assigned_values(out@) =~= assigned_values(before) + seq![ParamView::Text(name@)]);
    }
    if let Some(url) = &p.agent_card_url {
        let ghost before = out@;
        out.push(Assignment { column: ServerColumn::AgentCardUrl, value: text_param(url) });
        assert(assigned_columns(out@) =~= assigned_columns(before) + seq![
            ServerColumn::AgentCardUrl,
        ]);
        assert(assigned_values(out@) =~= assigned_values(before) + seq![ParamView::Text(url@)]);
    }
    if let Some(json) = &p.agent_card_json {
        let ghost before = out@;
        out.push(Assignment { column: ServerColumn::AgentCardJson, value: text_param(json) });
        assert(assigned_columns(out@) =~= assigned_columns(before) + seq![
            ServerColumn::AgentCardJson,
        ]);
        assert(assigned_values(out@) =~= assigned_values(before) + seq![ParamView::Text(json@)]);
    }
    if let Some(enabled) = p.enabled {
        let ghost before = out@;
        out.push(Assignment { column: ServerColumn::Enabled, value: flag_param(enabled) });
        assert(assigned_columns(out@) =~= assigned_columns(before) + seq![ServerColumn::Enabled]);
        assert(assigned_values(out@) =~= assigned_values(before) + seq![
            ParamView::Integer(flag_value(enabled)),
        ]);
    }
    assert(assigned_columns(out@) =~= supplied_columns(*p));
    assert(assigned_values(out@) =~= supplied_values(*p));
    out
}

/// The text that opens every partial update.
pub const UPDATE_SERVER_HEAD: &'static str = "UPDATE tb_setting_a2a_server SET ";

/// The text that closes every partial update: the refresh of the
/// modification time, and the row that is written.
pub const UPDATE_SERVER_TAIL: &'static str = "updated_at = datetime('now') WHERE id = ?";

/// The assignments of the given columns as they stand in the text of a
/// partial update: each column is set from one placeholder and followed by a
/// comma, in the order given.
pub open spec fn set_clause(columns: Seq<ServerColumn>) -> Seq<char>
    decreases columns.len(),
{
    if columns.len() == 0 {
        Seq::empty()
    } else {
        set_clause(columns.drop_last()) + column_name(columns.last()) + " = ?, "@
    }
}

/// The text of the partial update that writes the given columns.
pub open spec fn update_sql(columns: Seq<ServerColumn>) -> Seq<char> {
    UPDATE_SERVER_HEAD@ + set_clause(columns) + UPDATE_SERVER_TAIL@
}

/// The text of a partial update depends on which fields are supplied and on
/// nothing else: no value, and no id, enters it.
pub proof fn lemma_update_text_ignores_values(
    p: UpdateSettingA2AServerParams,
    q: UpdateSettingA2AServerParams,
)
    requires
        p.name is Some <==> q.name is Some,
        p.agent_card_url is Some <==> q.agent_card_url is Some,
        p.agent_card_json is Some <==> q.agent_card_json is Some,
        p.enabled is Some <==> q.enabled is Some,
    ensures
        update_sql(supplied_columns(p)) == update_sql(supplied_columns(q)),
{
    assert(supplied_columns(p) =~= supplied_columns(q));
}

/// The statement that writes the given assignments to the record `id` and
/// refreshes its modification time.
pub fn render_update(assignments: &Vec<Assignment>, id: i32) -> (s: SqlStatement)
    ensures
        s@.sql == update_sql(assigned_columns(assignments@)),
        s@.params == assigned_values(assignments@).push(ParamView::Integer(id as int)),
        s@.well_formed(),
{
    proof {
        lemma_update_placeholders(assigned_columns(assignments@));
    }
    let mut sql = UPDATE_SERVER_HEAD.to_owned();
    let mut params: Vec<Param> = Vec::new();
    let mut i: usize = 0;
    assert(assigned_columns(assignments@).take(0) =~= Seq::empty());
    assert(params_view(params@) =~= assigned_values(assignments@).take(0));
    while i < assignments.len()
        invariant
            i <= assignments.len(),
            sql@ == UPDATE_SERVER_HEAD@ + set_clause(assigned_columns(assignments@).take(i as int)),
            params_view(params@) == assigned_values(assignments@).take(i as int),
        decreases assignments.len() - i,
    {
        let ghost cols = assigned_columns(assignments@);
        let ghost before = params@;
        sql.append(assignments[i].column.name());
        sql.append(" = ?, ");
        params.push(assignments[i].value.duplicate());
        proof {
            assert(cols.take(i + 1).drop_last() =~= cols.take(i as int));
            assert(cols.take(i + 1).last() == assignments@[i as int].column);
            assert(sql@ =~= UPDATE_SERVER_HEAD@ + set_clause(cols.take(i + 1)));
            assert(params_view(params@) =~= params_view(before).push(
                assignments@[i as int].value@,
            ));
            assert(params_view(params@) =~= assigned_values(assignments@).take(i + 1));
        }
        i += 1;
    }
    let ghost before = params@;
    assert(assigned_columns(assignments@).take(i as int) =~= assigned_columns(assignments@));
    assert(assigned_values(assignments@).take(i as int) =~= assigned_values(assignments@));
    sql.append(UPDATE_SERVER_TAIL);
    params.push(Param::Integer(id as i64));
    assert(params_view(params@) =~= params_view(before).push(ParamView::Integer(id as int)));
    SqlStatement { sql, params }
}

/// The statement of a partial update, or `None` where no field is supplied:
/// such an update writes nothing, not even the modification time.
pub fn update_statement(p: &UpdateSettingA2AServerParams) -> (r: Option<SqlStatement>)
    ensures
        r is None <==> supplies_nothing(*p),
        r matches Some(s) ==> {
            &&& s@.sql == update_sql(supplied_columns(*p))
            &&& s@.params == supplied_values(*p).push(ParamView::Integer(p.id as int))
            &&& s@.well_formed()
        },
{
    let assignments = supplied_assignments(p);
    assert(assigned_columns(assignments@).len() == assignments@.len());
    assert(supplied_columns(*p).len() == 0 <==> supplies_nothing(*p));
    if assignments.len() == 0 {
        None
    } else {
        Some(render_update(&assignments, p.id))
    }
}

/// Creates the table of the remote-service records unless it exists. The
/// order of its columns is the order in which a row is read.
pub const CREATE_SERVER_TABLE: &'static str =
    "CREATE TABLE IF NOT EXISTS tb_setting_a2a_server (id INTEGER PRIMARY KEY AUTOINCREMENT, name TEXT NOT NULL, agent_card_url TEXT NOT NULL, agent_card_json TEXT, enabled INTEGER NOT NULL DEFAULT 0, created_at TEXT DEFAULT (datetime('now')), updated_at TEXT DEFAULT (datetime('now')))";

/// Creates the index of the remote-service records by name unless it exists.
pub const CREATE_SERVER_NAME_INDEX: &'static str =
    "CREATE INDEX IF NOT EXISTS idx_setting_a2a_server_name ON tb_setting_a2a_server (name)";

/// Creates the index of the remote-service records by flag unless it exists.
pub const CREATE_SERVER_ENABLED_INDEX: &'static str =
    "CREATE INDEX IF NOT EXISTS idx_setting_a2a_server_enabled ON tb_setting_a2a_server (enabled)";

/// Inserts a remote-service record; the store assigns the id and both times.
pub const INSERT_SERVER: &'static str =
    "INSERT INTO tb_setting_a2a_server (name, agent_card_url, agent_card_json, enabled) VALUES (?1, ?2, ?3, ?4)";

/// Selects all remote-service records by ascending id, the columns in the order of
/// the table.
pub const SELECT_SERVERS: &'static str =
    "SELECT id, name, agent_card_url, agent_card_json, enabled, created_at, updated_at FROM tb_setting_a2a_server ORDER BY id ASC";

/// Selects the remote-service record with an id.
pub const SELECT_SERVER_BY_ID: &'static str =
    "SELECT id, name, agent_card_url, agent_card_json, enabled, created_at, updated_at FROM tb_setting_a2a_server WHERE id = ?";

/// Selects the remote-service records with a name.
pub const SELECT_SERVER_BY_NAME: &'static str =
    "SELECT id, name, agent_card_url, agent_card_json, enabled, created_at, updated_at FROM tb_setting_a2a_server WHERE name = ?";

/// Selects the remote-service records whose flag is set, by ascending id.
pub const SELECT_ENABLED_SERVERS: &'static str =
    "SELECT id, name, agent_card_url, agent_card_json, enabled, created_at, updated_at FROM tb_setting_a2a_server WHERE enabled = 1 ORDER BY id ASC";

/// Deletes the remote-service record with an id.
pub const DELETE_SERVER_BY_ID: &'static str = "DELETE FROM tb_setting_a2a_server WHERE id = ?";

/// Deletes the remote-service records with a name.
pub const DELETE_SERVER_BY_NAME: &'static str = "DELETE FROM tb_setting_a2a_server WHERE name = ?";

/// Flips the flag of the remote-service record with an id and refreshes its
/// modification time.
pub const TOGGLE_SERVER: &'static str =
    "UPDATE tb_setting_a2a_server SET enabled = CASE WHEN enabled = 1 THEN 0 ELSE 1 END, updated_at = datetime('now') WHERE id = ?";

/// Clears the flag of every remote-service record but the one with an id and
/// refreshes their modification times.
pub const DISABLE_OTHER_SERVERS: &'static str =
    "UPDATE tb_setting_a2a_server SET enabled = 0, updated_at = datetime('now') WHERE id != ?";

/// Creates the table of the connection records unless it exists. The natural
/// key is unique: the upsert rests on it.
pub const CREATE_CONNECTION_TABLE: &'static str =
    "CREATE TABLE IF NOT EXISTS tb_dynmcp_connection (id INTEGER PRIMARY KEY AUTOINCREMENT, name TEXT NOT NULL, url TEXT NOT NULL UNIQUE, api_key TEXT NOT NULL, starred INTEGER NOT NULL DEFAULT 0)";

/// Creates the index of the connection records by natural key unless it exists.
pub const CREATE_CONNECTION_URL_INDEX: &'static str =
    "CREATE INDEX IF NOT EXISTS idx_connection_url ON tb_dynmcp_connection (url)";

/// Inserts a connection record; the store assigns the id.
pub const INSERT_CONNECTION: &'static str =
    "INSERT INTO tb_dynmcp_connection (name, url, api_key, starred) VALUES (?1, ?2, ?3, ?4)";

/// Inserts a connection record or, where its natural key is taken, overwrites the
/// name, the payload and the flag of the record that has it.
pub const UPSERT_CONNECTION: &'static str =
    "INSERT INTO tb_dynmcp_connection (name, url, api_key, starred) VALUES (?1, ?2, ?3, ?4) ON CONFLICT(url) DO UPDATE SET name = excluded.name, api_key = excluded.api_key, starred = excluded.starred";

/// Selects the id of the connection record with a natural key.
pub const SELECT_CONNECTION_ID: &'static str = "SELECT id FROM tb_dynmcp_connection WHERE url = ?1";

/// Selects the connection record with a natural key.
pub const SELECT_CONNECTION_BY_URL: &'static str =
    "SELECT id, name, url, api_key, starred FROM tb_dynmcp_connection WHERE url = ?";

/// Selects all connection records by ascending id, the columns in the order of
/// the table.
pub const SELECT_CONNECTIONS: &'static str =
    "SELECT id, name, url, api_key, starred FROM tb_dynmcp_connection ORDER BY id ASC";

/// The statement of a text that has no placeholder.
pub fn plain_statement(sql: &str) -> (s: SqlStatement)
    ensures
        s@ == (SqlStatementView { sql: sql@, params: seq![] }),
{
    let params: Vec<Param> = Vec::new();
    assert(params_view(params@) =~= seq![]);
    SqlStatement { sql: sql.to_owned(), params }
}

/// The statement of a text with one placeholder, bound to `param`.
pub fn unary_statement(sql: &str, param: Param) -> (s: SqlStatement)
    ensures
        s@ == (SqlStatementView { sql: sql@, params: seq![param@] }),
{
    let mut params: Vec<Param> = Vec::new();
    params.push(param);
    assert(params_view(params@) =~= seq![param@]);
    SqlStatement { sql: sql.to_owned(), params }
}

/// The statement of a text with four placeholders, bound in this order.
pub fn quaternary_statement(
    sql: &str,
    first: Param,
    second: Param,
    third: Param,
    fourth: Param,
) -> (s: SqlStatement)
    ensures
        s@ == (SqlStatementView { sql: sql@, params: seq![first@, second@, third@, fourth@] }),
{
    let mut params: Vec<Param> = Vec::new();
    params.push(first);
    params.push(second);
    params.push(third);
    params.push(fourth);
    assert(params_view(params@) =~= seq![first@, second@, third@, fourth@]);
    SqlStatement { sql: sql.to_owned(), params }
}

/// The statements that create the table of the remote-service records and
/// its indexes. Each leaves an existing table or index as it is.
pub fn server_schema() -> (r: Vec<SqlStatement>)
    ensures
        r@.len() == 3,
        r@[0]@ == (SqlStatementView { sql: CREATE_SERVER_TABLE@, params: seq![] }),
        r@[1]@ == (SqlStatementView { sql: CREATE_SERVER_NAME_INDEX@, params: seq![] }),
        r@[2]@ == (SqlStatementView { sql: CREATE_SERVER_ENABLED_INDEX@, params: seq![] }),
        forall|i: int| 0 <= i < r@.len() ==> (#[trigger] r@[i])@.well_formed(),
{
    proof {
        lemma_text_create_server_table();
        lemma_text_create_server_name_index();
        lemma_text_create_server_enabled_index();
    }
    let mut out: Vec<SqlStatement> = Vec::new();
    out.push(plain_statement(CREATE_SERVER_TABLE));
    out.push(plain_statement(CREATE_SERVER_NAME_INDEX));
    out.push(plain_statement(CREATE_SERVER_ENABLED_INDEX));
    out
}

/// The statements that create the table of the connection records and its
/// index. Each leaves an existing table or index as it is.
pub fn connection_schema() -> (r: Vec<SqlStatement>)
    ensures
        r@.len() == 2,
        r@[0]@ == (SqlStatementView { sql: CREATE_CONNECTION_TABLE@, params: seq![] }),
        r@[1]@ == (SqlStatementView { sql: CREATE_CONNECTION_URL_INDEX@, params: seq![] }),
        forall|i: int| 0 <= i < r@.len() ==> (#[trigger] r@[i])@.well_formed(),
{
    proof {
        lemma_text_create_connection_table();
        lemma_text_create_connection_url_index();
    }
    let mut out: Vec<SqlStatement> = Vec::new();
    out.push(plain_statement(CREATE_CONNECTION_TABLE));
    out.push(plain_statement(CREATE_CONNECTION_URL_INDEX));
    out
}

/// The parameters that write a remote-service record: name, natural key,
/// payload (NULL where there is none) and flag.
pub open spec fn server_params(p: SettingA2AServerParams) -> Seq<ParamView> {
    seq![
        ParamView::Text(p.name@),
        ParamView::Text(p.agent_card_url@),
        opt_text_value(p.agent_card_json),
        ParamView::Integer(flag_value(p.enabled)),
    ]
}

/// The insert of a remote-service record.
pub fn insert_server(p: &SettingA2AServerParams) -> (s: SqlStatement)
    ensures
        s@ == (SqlStatementView { sql: INSERT_SERVER@, params: server_params(*p) }),
        s@.well_formed(),
{
    proof {
        lemma_text_insert_server();
    }
    quaternary_statement(
        INSERT_SERVER,
        text_param(&p.name),
        text_param(&p.agent_card_url),
        opt_text_param(&p.agent_card_json),
        flag_param(p.enabled),
    )
}

/// The query for all remote-service records, by ascending id.
pub fn select_servers() -> (s: SqlStatement)
    ensures
        s@ == (SqlStatementView { sql: SELECT_SERVERS@, params: seq![] }),
        s@.well_formed(),
{
    proof {
        lemma_text_select_servers();
    }
    plain_statement(SELECT_SERVERS)
}

/// The query for the remote-service records whose flag is set, by ascending
/// id.
pub fn select_enabled_servers() -> (s: SqlStatement)
    ensures
        s@ == (SqlStatementView { sql: SELECT_ENABLED_SERVERS@, params: seq![] }),
        s@.well_formed(),
{
    proof {
        lemma_text_select_enabled_servers();
    }
    plain_statement(SELECT_ENABLED_SERVERS)
}

/// The query for the remote-service record `id`.
pub fn select_server_by_id(id: i32) -> (s: SqlStatement)
    ensures
        s@ == (SqlStatementView {
            sql: SELECT_SERVER_BY_ID@,
            params: seq![ParamView::Integer(id as int)],
        }),
        s@.well_formed(),
{
    proof {
        lemma_text_select_server_by_id();
    }
    unary_statement(SELECT_SERVER_BY_ID, Param::Integer(id as i64))
}

/// The query for the remote-service records named `name`.
pub fn select_server_by_name(name: &str) -> (s: SqlStatement)
    ensures
        s@ == (SqlStatementView {
            sql: SELECT_SERVER_BY_NAME@,
            params: seq![ParamView::Text(name@)],
        }),
        s@.well_formed(),
{
    proof {
        lemma_text_select_server_by_name();
    }
    unary_statement(SELECT_SERVER_BY_NAME, Param::Text(name.to_owned()))
}

/// The delete of the remote-service record `id`.
pub fn delete_server_by_id(id: i32) -> (s: SqlStatement)
    ensures
        s@ == (SqlStatementView {
            sql: DELETE_SERVER_BY_ID@,
            params: seq![ParamView::Integer(id as int)],
        }),
        s@.well_formed(),
{
    proof {
        lemma_text_delete_server_by_id();
    }
    unary_statement(DELETE_SERVER_BY_ID, Param::Integer(id as i64))
}

/// The delete of the remote-service records named `name`.
pub fn delete_server_by_name(name: &str) -> (s: SqlStatement)
    ensures
        s@ == (SqlStatementView {
            sql: DELETE_SERVER_BY_NAME@,
            params: seq![ParamView::Text(name@)],
        }),
        s@.well_formed(),
{
    proof {
        lemma_text_delete_server_by_name();
    }
    unary_statement(DELETE_SERVER_BY_NAME, Param::Text(name.to_owned()))
}

/// The update that flips the flag of the remote-service record `id` and
/// refreshes its modification time.
pub fn toggle_server(id: i32) -> (s: SqlStatement)
    ensures
        s@ == (SqlStatementView {
            sql: TOGGLE_SERVER@,
            params: seq![ParamView::Integer(id as int)],
        }),
        s@.well_formed(),
{
    proof {
        lemma_text_toggle_server();
    }
    unary_statement(TOGGLE_SERVER, Param::Integer(id as i64))
}

/// The update that clears the flag of every remote-service record but
/// `enabled_id` and refreshes their modification times.
pub fn disable_other_servers(enabled_id: i32) -> (s: SqlStatement)
    ensures
        s@ == (SqlStatementView {
            sql: DISABLE_OTHER_SERVERS@,
            params: seq![ParamView::Integer(enabled_id as int)],
        }),
        s@.well_formed(),
{
    proof {
        lemma_text_disable_other_servers();
    }
    unary_statement(DISABLE_OTHER_SERVERS, Param::Integer(enabled_id as i64))
}

/// The parameters that write a connection record: name, natural key, payload
/// and flag.
pub open spec fn connection_params(ac: DyncmcpConnection) -> Seq<ParamView> {
    seq![
        ParamView::Text(ac.name@),
        ParamView::Text(ac.url@),
        ParamView::Text(ac.api_key@),
        ParamView::Integer(flag_value(ac.starred)),
    ]
}

/// The insert of a connection record. The store refuses it where a record
/// with the same natural key exists.
pub fn insert_connection(ac: &DyncmcpConnection) -> (s: SqlStatement)
    ensures
        s@ == (SqlStatementView { sql: INSERT_CONNECTION@, params: connection_params(*ac) }),
        s@.well_formed(),
{
    proof {
        lemma_text_insert_connection();
    }
    quaternary_statement(
        INSERT_CONNECTION,
        text_param(&ac.name),
        text_param(&ac.url),
        text_param(&ac.api_key),
        flag_param(ac.starred),
    )
}

/// The insert of a connection record that, where a record with the same
/// natural key exists, overwrites the other fields of that record instead.
pub fn upsert_connection(ac: &DyncmcpConnection) -> (s: SqlStatement)
    ensures
        s@ == (SqlStatementView { sql: UPSERT_CONNECTION@, params: connection_params(*ac) }),
        s@.well_formed(),
{
    proof {
        lemma_text_upsert_connection();
    }
    quaternary_statement(
        UPSERT_CONNECTION,
        text_param(&ac.name),
        text_param(&ac.url),
        text_param(&ac.api_key),
        flag_param(ac.starred),
    )
}

/// The query for the id of the connection record with the natural key `url`.
pub fn select_connection_id(url: &String) -> (s: SqlStatement)
    ensures
        s@ == (SqlStatementView {
            sql: SELECT_CONNECTION_ID@,
            params: seq![ParamView::Text(url@)],
        }),
        s@.well_formed(),
{
    proof {
        lemma_text_select_connection_id();
    }
    unary_statement(SELECT_CONNECTION_ID, text_param(url))
}

/// The query for the connection record with the natural key `url`.
pub fn select_connection_by_url(url: &str) -> (s: SqlStatement)
    ensures
        s@ == (SqlStatementView {
            sql: SELECT_CONNECTION_BY_URL@,
            params: seq![ParamView::Text(url@)],
        }),
        s@.well_formed(),
{
    proof {
        lemma_text_select_connection_by_url();
    }
    unary_statement(SELECT_CONNECTION_BY_URL, Param::Text(url.to_owned()))
}

/// The query for all connection records, by ascending id.
pub fn select_connections() -> (s: SqlStatement)
    ensures
        s@ == (SqlStatementView { sql: SELECT_CONNECTIONS@, params: seq![] }),
        s@.well_formed(),
{
    proof {
        lemma_text_select_connections();
    }
    plain_statement(SELECT_CONNECTIONS)
}

} // verus!
