//! The settings records and the field sets from which they are written.

use vstd::prelude::*;
use crate::value::opt_text;

verus! {

/// A remote-service record as the store returns it.
#[derive(Debug, Clone, PartialEq, Eq)]
pub struct SettingA2AServer {
    /// Assigned by the store; present on every record that was read back.
    pub id: Option<i64>,
    pub name: String,
    /// The natural key of the record.
    pub agent_card_url: String,
    /// Opaque to the repository: stored and returned verbatim.
    pub agent_card_json: Option<String>,
    /// The active flag.
    pub enabled: bool,
    pub created_at: Option<String>,
    pub updated_at: Option<String>,
}

/// A remote-service record as a mathematical value.
pub struct SettingA2AServerView {
    pub id: Option<int>,
    pub name: Seq<char>,
    pub agent_card_url: Seq<char>,
    pub agent_card_json: Option<Seq<char>>,
    pub enabled: bool,
    pub created_at: Option<Seq<char>>,
    pub updated_at: Option<Seq<char>>,
}

impl View for SettingA2AServer {
    type V = SettingA2AServerView;

    open spec fn view(&self) -> SettingA2AServerView {
        SettingA2AServerView {
            id: match self.id {
                Some(i) => Some(i as int),
                None => None,
            },
            name: self.name@,
            agent_card_url: self.agent_card_url@,
            agent_card_json: opt_text(self.agent_card_json),
            enabled: self.enabled,
            created_at: opt_text(self.created_at),
            updated_at: opt_text(self.updated_at),
        }
    }
}

/// The fields from which a remote-service record is inserted.
#[derive(Debug, Clone, PartialEq, Eq)]
pub struct SettingA2AServerParams {
    pub name: String,
    pub agent_card_url: String,
    pub agent_card_json: Option<String>,
    pub enabled: bool,
}

/// A partial update of the remote-service record `id`: a column is written
/// exactly when its field is supplied.
#[derive(Debug, Clone, PartialEq, Eq)]
pub struct UpdateSettingA2AServerParams {
    pub id: i32,
    pub name: Option<String>,
    pub agent_card_url: Option<String>,
    pub agent_card_json: Option<String>,
    pub enabled: Option<bool>,
}

/// A connection record. Its `url` is the natural key, unique among the
/// connection records.
#[derive(Debug, Clone, PartialEq, Eq)]
pub struct DyncmcpConnection {
    /// Assigned by the store; present on every record that was read back.
    pub id: Option<i64>,
    pub name: String,
    pub url: String,
    /// Opaque to the repository: stored and returned verbatim.
    pub api_key: String,
    /// The flag of the record.
    pub starred: bool,
}

/// A connection record as a mathematical value.
pub struct DyncmcpConnectionView {
    pub id: Option<int>,
    pub name: Seq<char>,
    pub url: Seq<char>,
    pub api_key: Seq<char>,
    pub starred: bool,
}

impl View for DyncmcpConnection {
    type V = DyncmcpConnectionView;

    open spec fn view(&self) -> DyncmcpConnectionView {
        DyncmcpConnectionView {
            id: match self.id {
                Some(i) => Some(i as int),
                None => None,
            },
            name: self.name@,
            url: self.url@,
            api_key: self.api_key@,
            starred: self.starred,
        }
    }
}

/// Records, each taken by its view.
pub open spec fn servers_view(servers: Seq<SettingA2AServer>) -> Seq<SettingA2AServerView> {
    servers.map_values(|s: SettingA2AServer| s@)
}

/// Records, each taken by its view.
pub open spec fn connections_view(conns: Seq<DyncmcpConnection>) -> Seq<DyncmcpConnectionView> {
    conns.map_values(|c: DyncmcpConnection| c@)
}

} // verus!
