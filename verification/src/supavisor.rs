//! The connection pooler of a project.

use crate::client::{project_path, project_resource, resource_call, Client};
use crate::decode::{member, optional, optional_member, required, Decode};
use crate::dispatch::Dispatch;
use crate::json::{Json, JsonValue};
use crate::request::Method;
use crate::text::same_text;
use vstd::prelude::*;

verus! {

/// The kind of database that a pooler serves.
#[derive(Debug, Clone, Copy, PartialEq, Eq, Structural)]
pub enum DatabaseType {
    Primary,
    ReadReplica,
}

impl DeepView for DatabaseType {
    type V = DatabaseType;

    open spec fn deep_view(&self) -> DatabaseType {
        *self
    }
}

impl DatabaseType {
    /// The name by which the API calls the kind.
    pub open spec fn wire_name(self) -> Seq<char> {
        match self {
            DatabaseType::Primary => "PRIMARY"@,
            DatabaseType::ReadReplica => "READ_REPLICA"@,
        }
    }

    /// The kind that the API calls `name`, if it calls one so.
    pub open spec fn named(name: Seq<char>) -> Option<DatabaseType> {
        if exists|kind: DatabaseType| kind.wire_name() == name {
            Some(choose|kind: DatabaseType| kind.wire_name() == name)
        } else {
            None
        }
    }

    /// No two kinds share a name.
    pub proof fn lemma_names_differ(one: DatabaseType, other: DatabaseType)
        requires
            one != other,
        ensures
            one.wire_name() != other.wire_name(),
    {
        reveal_strlit("PRIMARY");
        reveal_strlit("READ_REPLICA");
        assert("PRIMARY"@.len() == 7 && "READ_REPLICA"@.len() == 12);
    }

    /// Each kind is the one that its own name names.
    pub proof fn lemma_named_by_own_name(kind: DatabaseType)
        ensures
            DatabaseType::named(kind.wire_name()) == Some(kind),
    {
        let found = choose|other: DatabaseType| other.wire_name() == kind.wire_name();
        if found != kind {
            DatabaseType::lemma_names_differ(found, kind);
        }
    }

    /// A text that is the name of no kind names none.
    proof fn lemma_no_name(name: Seq<char>)
        requires
            name != DatabaseType::Primary.wire_name(),
            name != DatabaseType::ReadReplica.wire_name(),
        ensures
            DatabaseType::named(name) is None,
    {
        assert forall|kind: DatabaseType| kind.wire_name() != name by {
            match kind {
                DatabaseType::Primary => {},
                DatabaseType::ReadReplica => {},
            }
        }
    }

    /// The kind that the API calls `name`.
    pub fn from_wire_name(name: &str) -> (kind: Option<DatabaseType>)
        ensures
            kind == DatabaseType::named(name@),
    {
        let kind = if same_text(name, "PRIMARY") {
            Some(DatabaseType::Primary)
        } else if same_text(name, "READ_REPLICA") {
            Some(DatabaseType::ReadReplica)
        } else {
            None
        };
        proof {
            match kind {
                Some(found) => {
                    assert(found.wire_name() == name@);
                    DatabaseType::lemma_named_by_own_name(found);
                },
                None => {
                    DatabaseType::lemma_no_name(name@);
                },
            }
        }
        kind
    }
}

impl Decode for DatabaseType {
    open spec fn shape(json: JsonValue) -> Option<DatabaseType> {
        match json {
            JsonValue::Text(name) => DatabaseType::named(name),
            _ => None,
        }
    }

    open spec fn name() -> Seq<char> {
        "DatabaseType"@
    }

    fn target_name() -> (name: String) {
        String::from_str("DatabaseType")
    }

    fn decode(json: &Json) -> (decoded: Option<DatabaseType>) {
        match json {
            Json::Text(name) => DatabaseType::from_wire_name(name.as_str()),
            _ => None,
        }
    }
}

/// The way in which a pooler hands out connections.
#[derive(Debug, Clone, Copy, PartialEq, Eq, Structural)]
pub enum PoolMode {
    Transaction,
    Session,
}

impl DeepView for PoolMode {
    type V = PoolMode;

    open spec fn deep_view(&self) -> PoolMode {
        *self
    }
}

impl PoolMode {
    /// The name by which the API calls the mode.
    pub open spec fn wire_name(self) -> Seq<char> {
        match self {
            PoolMode::Transaction => "transaction"@,
            PoolMode::Session => "session"@,
        }
    }

    /// The mode that the API calls `name`, if it calls one so.
    pub open spec fn named(name: Seq<char>) -> Option<PoolMode> {
        if exists|mode: PoolMode| mode.wire_name() == name {
            Some(choose|mode: PoolMode| mode.wire_name() == name)
        } else {
            None
        }
    }

    /// No two modes share a name.
    pub proof fn lemma_names_differ(one: PoolMode, other: PoolMode)
        requires
            one != other,
        ensures
            one.wire_name() != other.wire_name(),
    {
        reveal_strlit("transaction");
        reveal_strlit("session");
        assert("transaction"@.len() == 11 && "session"@.len() == 7);
    }

    /// Each mode is the one that its own name names.
    pub proof fn lemma_named_by_own_name(mode: PoolMode)
        ensures
            PoolMode::named(mode.wire_name()) == Some(mode),
    {
        let found = choose|other: PoolMode| other.wire_name() == mode.wire_name();
        if found != mode {
            PoolMode::lemma_names_differ(found, mode);
        }
    }

    /// A text that is the name of no mode names none.
    proof fn lemma_no_name(name: Seq<char>)
        requires
            name != PoolMode::Transaction.wire_name(),
            name != PoolMode::Session.wire_name(),
        ensures
            PoolMode::named(name) is None,
    {
        assert forall|mode: PoolMode| mode.wire_name() != name by {
            match mode {
                PoolMode::Transaction => {},
                PoolMode::Session => {},
            }
        }
    }

    /// The mode that the API calls `name`.
    pub fn from_wire_name(name: &str) -> (mode: Option<PoolMode>)
        ensures
            mode == PoolMode::named(name@),
    {
        let mode = if same_text(name, "transaction") {
            Some(PoolMode::Transaction)
        } else if same_text(name, "session") {
            Some(PoolMode::Session)
        } else {
            None
        };
        proof {
            match mode {
                Some(found) => {
                    assert(found.wire_name() == name@);
                    PoolMode::lemma_named_by_own_name(found);
                },
                None => {
                    PoolMode::lemma_no_name(name@);
                },
            }
        }
        mode
    }
}

impl Decode for PoolMode {
    open spec fn shape(json: JsonValue) -> Option<PoolMode> {
        match json {
            JsonValue::Text(name) => PoolMode::named(name),
            _ => None,
        }
    }

    open spec fn name() -> Seq<char> {
        "PoolMode"@
    }

    fn target_name() -> (name: String) {
        String::from_str("PoolMode")
    }

    fn decode(json: &Json) -> (decoded: Option<PoolMode>) {
        match json {
            Json::Text(name) => PoolMode::from_wire_name(name.as_str()),
            _ => None,
        }
    }
}

/// The configuration of one pooler of a project.
#[derive(Debug)]
pub struct SupavisorConfig {
    pub database_type: DatabaseType,
    pub db_port: i32,
    pub default_pool_size: Option<i32>,
    pub max_client_conn: Option<i32>,
    pub identifier: String,
    pub is_using_scram_auth: bool,
    pub db_user: String,
    pub db_host: String,
    pub db_name: String,
    pub pool_mode: PoolMode,
}

/// The mathematical value of a [`SupavisorConfig`].
pub struct SupavisorConfigView {
    pub database_type: DatabaseType,
    pub db_port: i32,
    pub default_pool_size: Option<i32>,
    pub max_client_conn: Option<i32>,
    pub identifier: Seq<char>,
    pub is_using_scram_auth: bool,
    pub db_user: Seq<char>,
    pub db_host: Seq<char>,
    pub db_name: Seq<char>,
    pub pool_mode: PoolMode,
}

impl DeepView for SupavisorConfig {
    type V = SupavisorConfigView;

    open spec fn deep_view(&self) -> SupavisorConfigView {
        SupavisorConfigView {
            database_type: self.database_type,
            db_port: self.db_port,
            default_pool_size: self.default_pool_size,
            max_client_conn: self.max_client_conn,
            identifier: self.identifier@,
            is_using_scram_auth: self.is_using_scram_auth,
            db_user: self.db_user@,
            db_host: self.db_host@,
            db_name: self.db_name@,
            pool_mode: self.pool_mode,
        }
    }
}

impl Clone for SupavisorConfig {
    fn clone(&self) -> (copy: Self)
        ensures
            copy.deep_view() == self.deep_view(),
    {
        SupavisorConfig {
            database_type: self.database_type,
            db_port: self.db_port,
            default_pool_size: self.default_pool_size,
            max_client_conn: self.max_client_conn,
            identifier: self.identifier.clone(),
            is_using_scram_auth: self.is_using_scram_auth,
            db_user: self.db_user.clone(),
            db_host: self.db_host.clone(),
            db_name: self.db_name.clone(),
            pool_mode: self.pool_mode,
        }
    }
}

impl Decode for SupavisorConfig {
    open spec fn shape(json: JsonValue) -> Option<SupavisorConfigView> {
        if json is Object && member::<DatabaseType>(json, "database_type"@) is Some && member::<
            i32,
        >(json, "db_port"@) is Some && optional_member::<i32>(json, "default_pool_size"@) is Some
            && optional_member::<i32>(json, "max_client_conn"@) is Some && member::<String>(
            json,
            "identifier"@,
        ) is Some && member::<bool>(json, "is_using_scram_auth"@) is Some && member::<String>(
            json,
            "db_user"@,
        ) is Some && member::<String>(json, "db_host"@) is Some && member::<String>(
            json,
            "db_name"@,
        ) is Some && member::<PoolMode>(json, "pool_mode"@) is Some {
            Some(
                SupavisorConfigView {
                    database_type: member::<DatabaseType>(json, "database_type"@)->0,
                    db_port: member::<i32>(json, "db_port"@)->0,
                    default_pool_size: optional_member::<i32>(json, "default_pool_size"@)->0,
                    max_client_conn: optional_member::<i32>(json, "max_client_conn"@)->0,
                    identifier: member::<String>(json, "identifier"@)->0,
                    is_using_scram_auth: member::<bool>(json, "is_using_scram_auth"@)->0,
                    db_user: member::<String>(json, "db_user"@)->0,
                    db_host: member::<String>(json, "db_host"@)->0,
                    db_name: member::<String>(json, "db_name"@)->0,
                    pool_mode: member::<PoolMode>(json, "pool_mode"@)->0,
                },
            )
        } else {
            None
        }
    }

    open spec fn name() -> Seq<char> {
        "SupavisorConfig"@
    }

    fn target_name() -> (name: String) {
        String::from_str("SupavisorConfig")
    }

    fn decode(json: &Json) -> (decoded: Option<SupavisorConfig>) {
        match json {
            Json::Object(_) => {},
            _ => {
                return None;
            },
        }
        let database_type = required::<DatabaseType>(json, "database_type")?;
        let db_port = required::<i32>(json, "db_port")?;
        let default_pool_size = optional::<i32>(json, "default_pool_size")?;
        let max_client_conn = optional::<i32>(json, "max_client_conn")?;
        let identifier = required::<String>(json, "identifier")?;
        let is_using_scram_auth = required::<bool>(json, "is_using_scram_auth")?;
        let db_user = required::<String>(json, "db_user")?;
        let db_host = required::<String>(json, "db_host")?;
        let db_name = required::<String>(json, "db_name")?;
        let pool_mode = required::<PoolMode>(json, "pool_mode")?;
        Some(
            SupavisorConfig {
                database_type,
                db_port,
                default_pool_size,
                max_client_conn,
                identifier,
                is_using_scram_auth,
                db_user,
                db_host,
                db_name,
                pool_mode,
            },
        )
    }
}

impl Client {
    /// Asks for the configuration of a project's connection poolers.
    pub fn get_supavisor_details(&self, project_id: &str) -> (dispatch: Dispatch<
        Vec<SupavisorConfig>,
    >)
        ensures
            dispatch@ == resource_call(
                self@,
                Method::Get,
                project_resource(project_id@, "/config/database/pooler"@),
                None,
            ),
    {
        let path = project_path(project_id, "/config/database/pooler");
        self.get(path.as_str())
    }
}

} // verus!
