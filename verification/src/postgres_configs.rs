//! The settings of a project's Postgres database: reading them and changing
//! them.

use crate::client::{project_path, project_resource, resource_call, Client};
use crate::decode::{optional, optional_member, Decode};
use crate::dispatch::Dispatch;
use crate::encode::{
    bool_member, int_member, json_quoted, object, object_text, quote, text_member,
};
use crate::json::{Json, JsonValue};
use crate::request::Method;
use crate::text::{same_text, signed_decimal_text};
use vstd::prelude::*;

verus! {

/// The role in which a session takes part in replication.
#[derive(Debug, Clone, Copy, PartialEq, Eq, Structural)]
pub enum SessionReplicationRole {
    Origin,
    Replica,
    Local,
}

impl DeepView for SessionReplicationRole {
    type V = SessionReplicationRole;

    open spec fn deep_view(&self) -> SessionReplicationRole {
        *self
    }
}

impl SessionReplicationRole {
    /// The name by which the API calls the role.
    pub open spec fn wire_name(self) -> Seq<char> {
        match self {
            SessionReplicationRole::Origin => "origin"@,
            SessionReplicationRole::Replica => "replica"@,
            SessionReplicationRole::Local => "local"@,
        }
    }

    /// The role that the API calls `name`, if it calls one so.
    pub open spec fn named(name: Seq<char>) -> Option<SessionReplicationRole> {
        if exists|role: SessionReplicationRole| role.wire_name() == name {
            Some(choose|role: SessionReplicationRole| role.wire_name() == name)
        } else {
            None
        }
    }

    /// No two roles share a name.
    pub proof fn lemma_names_differ(one: SessionReplicationRole, other: SessionReplicationRole)
        requires
            one != other,
        ensures
            one.wire_name() != other.wire_name(),
    {
        reveal_strlit("origin");
        reveal_strlit("replica");
        reveal_strlit("local");
        assert("origin"@.len() == 6 && "replica"@.len() == 7 && "local"@.len() == 5);
    }

    /// Each role is the one that its own name names.
    pub proof fn lemma_named_by_own_name(role: SessionReplicationRole)
        ensures
            SessionReplicationRole::named(role.wire_name()) == Some(role),
    {
        let found = choose|other: SessionReplicationRole| other.wire_name() == role.wire_name();
        if found != role {
            SessionReplicationRole::lemma_names_differ(found, role);
        }
    }

    /// A text that is the name of no role names none.
    proof fn lemma_no_name(name: Seq<char>)
        requires
            name != SessionReplicationRole::Origin.wire_name(),
            name != SessionReplicationRole::Replica.wire_name(),
            name != SessionReplicationRole::Local.wire_name(),
        ensures
            SessionReplicationRole::named(name) is None,
    {
        assert forall|role: SessionReplicationRole| role.wire_name() != name by {
            match role {
                SessionReplicationRole::Origin => {},
                SessionReplicationRole::Replica => {},
                SessionReplicationRole::Local => {},
            }
        }
    }

    /// The role that the API calls `name`.
    pub fn from_wire_name(name: &str) -> (role: Option<SessionReplicationRole>)
        ensures
            role == SessionReplicationRole::named(name@),
    {
        let role = if same_text(name, "origin") {
            Some(SessionReplicationRole::Origin)
        } else if same_text(name, "replica") {
            Some(SessionReplicationRole::Replica)
        } else if same_text(name, "local") {
            Some(SessionReplicationRole::Local)
        } else {
            None
        };
        proof {
            match role {
                Some(found) => {
                    assert(found.wire_name() == name@);
                    SessionReplicationRole::lemma_named_by_own_name(found);
                },
                None => {
                    SessionReplicationRole::lemma_no_name(name@);
                },
            }
        }
        role
    }

    /// The name by which the API calls the role.
    pub fn to_wire_name(&self) -> (name: &'static str)
        ensures
            name@ == self.wire_name(),
    {
        match self {
            SessionReplicationRole::Origin => "origin",
            SessionReplicationRole::Replica => "replica",
            SessionReplicationRole::Local => "local",
        }
    }
}

impl Decode for SessionReplicationRole {
    open spec fn shape(json: JsonValue) -> Option<SessionReplicationRole> {
        match json {
            JsonValue::Text(name) => SessionReplicationRole::named(name),
            _ => None,
        }
    }

    open spec fn name() -> Seq<char> {
        "SessionReplicationRole"@
    }

    fn target_name() -> (name: String) {
        String::from_str("SessionReplicationRole")
    }

    fn decode(json: &Json) -> (decoded: Option<SessionReplicationRole>) {
        match json {
            Json::Text(name) => SessionReplicationRole::from_wire_name(name.as_str()),
            _ => None,
        }
    }
}

/// The settings of a Postgres database. Each is optional: one that is absent
/// is left as the server has it.
#[derive(Debug)]
pub struct PostgresConfig {
    pub effective_cache_size: Option<String>,
    pub logical_decoding_work_mem: Option<String>,
    pub maintenance_work_mem: Option<String>,
    pub track_activity_query_size: Option<String>,
    pub max_connections: Option<i32>,
    pub max_locks_per_transaction: Option<i32>,
    pub max_parallel_maintenance_workers: Option<i32>,
    pub max_parallel_workers: Option<i32>,
    pub max_parallel_workers_per_gather: Option<i32>,
    pub max_replication_slots: Option<i32>,
    pub max_slot_wal_keep_size: Option<String>,
    pub max_standby_archive_delay: Option<String>,
    pub max_standby_streaming_delay: Option<String>,
    pub max_wal_size: Option<String>,
    pub max_wal_senders: Option<i32>,
    pub max_worker_processes: Option<i32>,
    pub shared_buffers: Option<String>,
    pub statement_timeout: Option<String>,
    pub track_commit_timestamp: Option<bool>,
    pub wal_keep_size: Option<String>,
    pub wal_sender_timeout: Option<String>,
    pub work_mem: Option<String>,
    pub session_replication_role: Option<SessionReplicationRole>,
}

/// The mathematical value of a [`PostgresConfig`].
pub struct PostgresConfigView {
    pub effective_cache_size: Option<Seq<char>>,
    pub logical_decoding_work_mem: Option<Seq<char>>,
    pub maintenance_work_mem: Option<Seq<char>>,
    pub track_activity_query_size: Option<Seq<char>>,
    pub max_connections: Option<i32>,
    pub max_locks_per_transaction: Option<i32>,
    pub max_parallel_maintenance_workers: Option<i32>,
    pub max_parallel_workers: Option<i32>,
    pub max_parallel_workers_per_gather: Option<i32>,
    pub max_replication_slots: Option<i32>,
    pub max_slot_wal_keep_size: Option<Seq<char>>,
    pub max_standby_archive_delay: Option<Seq<char>>,
    pub max_standby_streaming_delay: Option<Seq<char>>,
    pub max_wal_size: Option<Seq<char>>,
    pub max_wal_senders: Option<i32>,
    pub max_worker_processes: Option<i32>,
    pub shared_buffers: Option<Seq<char>>,
    pub statement_timeout: Option<Seq<char>>,
    pub track_commit_timestamp: Option<bool>,
    pub wal_keep_size: Option<Seq<char>>,
    pub wal_sender_timeout: Option<Seq<char>>,
    pub work_mem: Option<Seq<char>>,
    pub session_replication_role: Option<SessionReplicationRole>,
}

impl DeepView for PostgresConfig {
    type V = PostgresConfigView;

    open spec fn deep_view(&self) -> PostgresConfigView {
        PostgresConfigView {
            effective_cache_size: self.effective_cache_size.deep_view(),
            logical_decoding_work_mem: self.logical_decoding_work_mem.deep_view(),
            maintenance_work_mem: self.maintenance_work_mem.deep_view(),
            track_activity_query_size: self.track_activity_query_size.deep_view(),
            max_connections: self.max_connections,
            max_locks_per_transaction: self.max_locks_per_transaction,
            max_parallel_maintenance_workers: self.max_parallel_maintenance_workers,
            max_parallel_workers: self.max_parallel_workers,
            max_parallel_workers_per_gather: self.max_parallel_workers_per_gather,
            max_replication_slots: self.max_replication_slots,
            max_slot_wal_keep_size: self.max_slot_wal_keep_size.deep_view(),
            max_standby_archive_delay: self.max_standby_archive_delay.deep_view(),
            max_standby_streaming_delay: self.max_standby_streaming_delay.deep_view(),
            max_wal_size: self.max_wal_size.deep_view(),
            max_wal_senders: self.max_wal_senders,
            max_worker_processes: self.max_worker_processes,
            shared_buffers: self.shared_buffers.deep_view(),
            statement_timeout: self.statement_timeout.deep_view(),
            track_commit_timestamp: self.track_commit_timestamp,
            wal_keep_size: self.wal_keep_size.deep_view(),
            wal_sender_timeout: self.wal_sender_timeout.deep_view(),
            work_mem: self.work_mem.deep_view(),
            session_replication_role: self.session_replication_role,
        }
    }
}

impl Clone for PostgresConfig {
    fn clone(&self) -> (copy: Self)
        ensures
            copy.deep_view() == self.deep_view(),
    {
        PostgresConfig {
            effective_cache_size: self.effective_cache_size.clone(),
            logical_decoding_work_mem: self.logical_decoding_work_mem.clone(),
            maintenance_work_mem: self.maintenance_work_mem.clone(),
            track_activity_query_size: self.track_activity_query_size.clone(),
            max_connections: self.max_connections,
            max_locks_per_transaction: self.max_locks_per_transaction,
            max_parallel_maintenance_workers: self.max_parallel_maintenance_workers,
            max_parallel_workers: self.max_parallel_workers,
            max_parallel_workers_per_gather: self.max_parallel_workers_per_gather,
            max_replication_slots: self.max_replication_slots,
            max_slot_wal_keep_size: self.max_slot_wal_keep_size.clone(),
            max_standby_archive_delay: self.max_standby_archive_delay.clone(),
            max_standby_streaming_delay: self.max_standby_streaming_delay.clone(),
            max_wal_size: self.max_wal_size.clone(),
            max_wal_senders: self.max_wal_senders,
            max_worker_processes: self.max_worker_processes,
            shared_buffers: self.shared_buffers.clone(),
            statement_timeout: self.statement_timeout.clone(),
            track_commit_timestamp: self.track_commit_timestamp,
            wal_keep_size: self.wal_keep_size.clone(),
            wal_sender_timeout: self.wal_sender_timeout.clone(),
            work_mem: self.work_mem.clone(),
            session_replication_role: self.session_replication_role,
        }
    }
}

impl Default for PostgresConfig {
    /// The configuration that sets nothing.
    fn default() -> (config: PostgresConfig)
        ensures
            config.deep_view() == PostgresConfigView::unset(),
    {
        PostgresConfig {
            effective_cache_size: None,
            logical_decoding_work_mem: None,
            maintenance_work_mem: None,
            track_activity_query_size: None,
            max_connections: None,
            max_locks_per_transaction: None,
            max_parallel_maintenance_workers: None,
            max_parallel_workers: None,
            max_parallel_workers_per_gather: None,
            max_replication_slots: None,
            max_slot_wal_keep_size: None,
            max_standby_archive_delay: None,
            max_standby_streaming_delay: None,
            max_wal_size: None,
            max_wal_senders: None,
            max_worker_processes: None,
            shared_buffers: None,
            statement_timeout: None,
            track_commit_timestamp: None,
            wal_keep_size: None,
            wal_sender_timeout: None,
            work_mem: None,
            session_replication_role: None,
        }
    }
}

/// The member that a text setting adds to the payload: none where it is
/// unset.
pub open spec fn text_setting(name: Seq<char>, value: Option<Seq<char>>) -> Seq<
    (Seq<char>, Seq<char>),
> {
    match value {
        Some(value) => seq![text_member(name, value)],
        None => Seq::empty(),
    }
}

/// The member that a number setting adds to the payload: none where it is
/// unset.
pub open spec fn int_setting(name: Seq<char>, value: Option<i32>) -> Seq<(Seq<char>, Seq<char>)> {
    match value {
        Some(value) => seq![int_member(name, value as int)],
        None => Seq::empty(),
    }
}

/// The member that a switch adds to the payload: none where it is unset.
pub open spec fn bool_setting(name: Seq<char>, value: Option<bool>) -> Seq<
    (Seq<char>, Seq<char>),
> {
    match value {
        Some(value) => seq![bool_member(name, value)],
        None => Seq::empty(),
    }
}

/// The member that the replication role adds to the payload: none where it is
/// unset.
pub open spec fn role_setting(name: Seq<char>, value: Option<SessionReplicationRole>) -> Seq<
    (Seq<char>, Seq<char>),
> {
    match value {
        Some(role) => seq![text_member(name, role.wire_name())],
        None => Seq::empty(),
    }
}

impl PostgresConfigView {
    /// The configuration that sets nothing.
    pub open spec fn unset() -> PostgresConfigView {
        PostgresConfigView {
            effective_cache_size: None,
            logical_decoding_work_mem: None,
            maintenance_work_mem: None,
            track_activity_query_size: None,
            max_connections: None,
            max_locks_per_transaction: None,
            max_parallel_maintenance_workers: None,
            max_parallel_workers: None,
            max_parallel_workers_per_gather: None,
            max_replication_slots: None,
            max_slot_wal_keep_size: None,
            max_standby_archive_delay: None,
            max_standby_streaming_delay: None,
            max_wal_size: None,
            max_wal_senders: None,
            max_worker_processes: None,
            shared_buffers: None,
            statement_timeout: None,
            track_commit_timestamp: None,
            wal_keep_size: None,
            wal_sender_timeout: None,
            work_mem: None,
            session_replication_role: None,
        }
    }

    /// The members of the payload that asks for these settings: one for each
    /// setting that is set, in the order in which the settings are declared.
    pub open spec fn members(self) -> Seq<(Seq<char>, Seq<char>)> {
        Seq::empty()
            + text_setting("effective_cache_size"@, self.effective_cache_size)
            + text_setting("logical_decoding_work_mem"@, self.logical_decoding_work_mem)
            + text_setting("maintenance_work_mem"@, self.maintenance_work_mem)
            + text_setting("track_activity_query_size"@, self.track_activity_query_size)
            + int_setting("max_connections"@, self.max_connections)
            + int_setting("max_locks_per_transaction"@, self.max_locks_per_transaction)
            + int_setting("max_parallel_maintenance_workers"@, self.max_parallel_maintenance_workers)
            + int_setting("max_parallel_workers"@, self.max_parallel_workers)
            + int_setting("max_parallel_workers_per_gather"@, self.max_parallel_workers_per_gather)
            + int_setting("max_replication_slots"@, self.max_replication_slots)
            + text_setting("max_slot_wal_keep_size"@, self.max_slot_wal_keep_size)
            + text_setting("max_standby_archive_delay"@, self.max_standby_archive_delay)
            + text_setting("max_standby_streaming_delay"@, self.max_standby_streaming_delay)
            + text_setting("max_wal_size"@, self.max_wal_size)
            + int_setting("max_wal_senders"@, self.max_wal_senders)
            + int_setting("max_worker_processes"@, self.max_worker_processes)
            + text_setting("shared_buffers"@, self.shared_buffers)
            + text_setting("statement_timeout"@, self.statement_timeout)
            + bool_setting("track_commit_timestamp"@, self.track_commit_timestamp)
            + text_setting("wal_keep_size"@, self.wal_keep_size)
            + text_setting("wal_sender_timeout"@, self.wal_sender_timeout)
            + text_setting("work_mem"@, self.work_mem)
            + role_setting("session_replication_role"@, self.session_replication_role)
    }

    /// The text of the payload that asks for these settings.
    pub open spec fn json_text(self) -> Seq<char> {
        object_text(self.members())
    }
}

/// Adds to `members` the member that holds `value`, a JSON text already,
/// under `name`.
fn push_member(members: &mut Vec<(String, String)>, name: &str, value: String)
    ensures
        final(members).deep_view() == old(members).deep_view() + seq![(json_quoted(name@), value@)],
{
    let written = quote(name);
    members.push((written, value));
    assert(members.deep_view() =~= old(members).deep_view() + seq![(json_quoted(name@), value@)]);
}

/// Adds to `members` what the text setting `name` adds to the payload.
fn push_text(members: &mut Vec<(String, String)>, name: &str, value: &Option<String>)
    ensures
        final(members).deep_view() == old(members).deep_view() + text_setting(
            name@,
            value.deep_view(),
        ),
{
    match value {
        Some(value) => {
            push_member(members, name, quote(value.as_str()));
        },
        None => {
            assert(members.deep_view() =~= old(members).deep_view() + Seq::empty());
        },
    }
}

/// Adds to `members` what the number setting `name` adds to the payload.
fn push_int(members: &mut Vec<(String, String)>, name: &str, value: Option<i32>)
    ensures
        final(members).deep_view() == old(members).deep_view() + int_setting(name@, value),
{
    match value {
        Some(value) => {
            push_member(members, name, signed_decimal_text(value as i64));
        },
        None => {
            assert(members.deep_view() =~= old(members).deep_view() + Seq::empty());
        },
    }
}

/// Adds to `members` what the switch `name` adds to the payload.
fn push_bool(members: &mut Vec<(String, String)>, name: &str, value: Option<bool>)
    ensures
        final(members).deep_view() == old(members).deep_view() + bool_setting(name@, value),
{
    match value {
        Some(value) => {
            let written = if value {
                "true"
            } else {
                "false"
            };
            push_member(members, name, String::from_str(written));
        },
        None => {
            assert(members.deep_view() =~= old(members).deep_view() + Seq::empty());
        },
    }
}

/// Adds to `members` what the replication role adds to the payload.
fn push_role(members: &mut Vec<(String, String)>, name: &str, value: Option<SessionReplicationRole>)
    ensures
        final(members).deep_view() == old(members).deep_view() + role_setting(name@, value),
{
    match value {
        Some(role) => {
            push_member(members, name, quote(role.to_wire_name()));
        },
        None => {
            assert(members.deep_view() =~= old(members).deep_view() + Seq::empty());
        },
    }
}

impl PostgresConfig {
    /// Writes the payload that asks the server for these settings: a JSON
    /// object with one member for each setting that is set.
    pub fn to_json(&self) -> (text: String)
        ensures
            text@ == self.deep_view().json_text(),
    {
        let mut members: Vec<(String, String)> = Vec::new();
        assert(members.deep_view() =~= Seq::empty());
        push_text(&mut members, "effective_cache_size", &self.effective_cache_size);
        push_text(&mut members, "logical_decoding_work_mem", &self.logical_decoding_work_mem);
        push_text(&mut members, "maintenance_work_mem", &self.maintenance_work_mem);
        push_text(&mut members, "track_activity_query_size", &self.track_activity_query_size);
        push_int(&mut members, "max_connections", self.max_connections);
        push_int(&mut members, "max_locks_per_transaction", self.max_locks_per_transaction);
        push_int(&mut members, "max_parallel_maintenance_workers", self.max_parallel_maintenance_workers);
        push_int(&mut members, "max_parallel_workers", self.max_parallel_workers);
        push_int(&mut members, "max_parallel_workers_per_gather", self.max_parallel_workers_per_gather);
        push_int(&mut members, "max_replication_slots", self.max_replication_slots);
        push_text(&mut members, "max_slot_wal_keep_size", &self.max_slot_wal_keep_size);
        push_text(&mut members, "max_standby_archive_delay", &self.max_standby_archive_delay);
        push_text(&mut members, "max_standby_streaming_delay", &self.max_standby_streaming_delay);
        push_text(&mut members, "max_wal_size", &self.max_wal_size);
        push_int(&mut members, "max_wal_senders", self.max_wal_senders);
        push_int(&mut members, "max_worker_processes", self.max_worker_processes);
        push_text(&mut members, "shared_buffers", &self.shared_buffers);
        push_text(&mut members, "statement_timeout", &self.statement_timeout);
        push_bool(&mut members, "track_commit_timestamp", self.track_commit_timestamp);
        push_text(&mut members, "wal_keep_size", &self.wal_keep_size);
        push_text(&mut members, "wal_sender_timeout", &self.wal_sender_timeout);
        push_text(&mut members, "work_mem", &self.work_mem);
        push_role(&mut members, "session_replication_role", self.session_replication_role);
        object(&members)
    }
}

impl Decode for PostgresConfig {
    open spec fn shape(json: JsonValue) -> Option<PostgresConfigView> {
        if json is Object
            && optional_member::<String>(json, "effective_cache_size"@) is Some
            && optional_member::<String>(json, "logical_decoding_work_mem"@) is Some
            && optional_member::<String>(json, "maintenance_work_mem"@) is Some
            && optional_member::<String>(json, "track_activity_query_size"@) is Some
            && optional_member::<i32>(json, "max_connections"@) is Some
            && optional_member::<i32>(json, "max_locks_per_transaction"@) is Some
            && optional_member::<i32>(json, "max_parallel_maintenance_workers"@) is Some
            && optional_member::<i32>(json, "max_parallel_workers"@) is Some
            && optional_member::<i32>(json, "max_parallel_workers_per_gather"@) is Some
            && optional_member::<i32>(json, "max_replication_slots"@) is Some
            && optional_member::<String>(json, "max_slot_wal_keep_size"@) is Some
            && optional_member::<String>(json, "max_standby_archive_delay"@) is Some
            && optional_member::<String>(json, "max_standby_streaming_delay"@) is Some
            && optional_member::<String>(json, "max_wal_size"@) is Some
            && optional_member::<i32>(json, "max_wal_senders"@) is Some
            && optional_member::<i32>(json, "max_worker_processes"@) is Some
            && optional_member::<String>(json, "shared_buffers"@) is Some
            && optional_member::<String>(json, "statement_timeout"@) is Some
            && optional_member::<bool>(json, "track_commit_timestamp"@) is Some
            && optional_member::<String>(json, "wal_keep_size"@) is Some
            && optional_member::<String>(json, "wal_sender_timeout"@) is Some
            && optional_member::<String>(json, "work_mem"@) is Some
            && optional_member::<SessionReplicationRole>(json, "session_replication_role"@) is Some
        {
            Some(
                PostgresConfigView {
                    effective_cache_size: optional_member::<String>(json, "effective_cache_size"@)->0,
                    logical_decoding_work_mem: optional_member::<String>(json, "logical_decoding_work_mem"@)->0,
                    maintenance_work_mem: optional_member::<String>(json, "maintenance_work_mem"@)->0,
                    track_activity_query_size: optional_member::<String>(json, "track_activity_query_size"@)->0,
                    max_connections: optional_member::<i32>(json, "max_connections"@)->0,
                    max_locks_per_transaction: optional_member::<i32>(json, "max_locks_per_transaction"@)->0,
                    max_parallel_maintenance_workers: optional_member::<i32>(json, "max_parallel_maintenance_workers"@)->0,
                    max_parallel_workers: optional_member::<i32>(json, "max_parallel_workers"@)->0,
                    max_parallel_workers_per_gather: optional_member::<i32>(json, "max_parallel_workers_per_gather"@)->0,
                    max_replication_slots: optional_member::<i32>(json, "max_replication_slots"@)->0,
                    max_slot_wal_keep_size: optional_member::<String>(json, "max_slot_wal_keep_size"@)->0,
                    max_standby_archive_delay: optional_member::<String>(json, "max_standby_archive_delay"@)->0,
                    max_standby_streaming_delay: optional_member::<String>(json, "max_standby_streaming_delay"@)->0,
                    max_wal_size: optional_member::<String>(json, "max_wal_size"@)->0,
                    max_wal_senders: optional_member::<i32>(json, "max_wal_senders"@)->0,
                    max_worker_processes: optional_member::<i32>(json, "max_worker_processes"@)->0,
                    shared_buffers: optional_member::<String>(json, "shared_buffers"@)->0,
                    statement_timeout: optional_member::<String>(json, "statement_timeout"@)->0,
                    track_commit_timestamp: optional_member::<bool>(json, "track_commit_timestamp"@)->0,
                    wal_keep_size: optional_member::<String>(json, "wal_keep_size"@)->0,
                    wal_sender_timeout: optional_member::<String>(json, "wal_sender_timeout"@)->0,
                    work_mem: optional_member::<String>(json, "work_mem"@)->0,
                    session_replication_role: optional_member::<SessionReplicationRole>(json, "session_replication_role"@)->0,
                },
            )
        } else {
            None
        }
    }

    open spec fn name() -> Seq<char> {
        "PostgresConfig"@
    }

    fn target_name() -> (name: String) {
        String::from_str("PostgresConfig")
    }

    fn decode(json: &Json) -> (decoded: Option<PostgresConfig>) {
        match json {
            Json::Object(_) => {},
            _ => {
                return None;
            },
        }
        let effective_cache_size = optional::<String>(json, "effective_cache_size")?;
        let logical_decoding_work_mem = optional::<String>(json, "logical_decoding_work_mem")?;
        let maintenance_work_mem = optional::<String>(json, "maintenance_work_mem")?;
        let track_activity_query_size = optional::<String>(json, "track_activity_query_size")?;
        let max_connections = optional::<i32>(json, "max_connections")?;
        let max_locks_per_transaction = optional::<i32>(json, "max_locks_per_transaction")?;
        let max_parallel_maintenance_workers = optional::<i32>(json, "max_parallel_maintenance_workers")?;
        let max_parallel_workers = optional::<i32>(json, "max_parallel_workers")?;
        let max_parallel_workers_per_gather = optional::<i32>(json, "max_parallel_workers_per_gather")?;
        let max_replication_slots = optional::<i32>(json, "max_replication_slots")?;
        let max_slot_wal_keep_size = optional::<String>(json, "max_slot_wal_keep_size")?;
        let max_standby_archive_delay = optional::<String>(json, "max_standby_archive_delay")?;
        let max_standby_streaming_delay = optional::<String>(json, "max_standby_streaming_delay")?;
        let max_wal_size = optional::<String>(json, "max_wal_size")?;
        let max_wal_senders = optional::<i32>(json, "max_wal_senders")?;
        let max_worker_processes = optional::<i32>(json, "max_worker_processes")?;
        let shared_buffers = optional::<String>(json, "shared_buffers")?;
        let statement_timeout = optional::<String>(json, "statement_timeout")?;
        let track_commit_timestamp = optional::<bool>(json, "track_commit_timestamp")?;
        let wal_keep_size = optional::<String>(json, "wal_keep_size")?;
        let wal_sender_timeout = optional::<String>(json, "wal_sender_timeout")?;
        let work_mem = optional::<String>(json, "work_mem")?;
        let session_replication_role = optional::<SessionReplicationRole>(json, "session_replication_role")?;
        Some(
            PostgresConfig {
                effective_cache_size,
                logical_decoding_work_mem,
                maintenance_work_mem,
                track_activity_query_size,
                max_connections,
                max_locks_per_transaction,
                max_parallel_maintenance_workers,
                max_parallel_workers,
                max_parallel_workers_per_gather,
                max_replication_slots,
                max_slot_wal_keep_size,
                max_standby_archive_delay,
                max_standby_streaming_delay,
                max_wal_size,
                max_wal_senders,
                max_worker_processes,
                shared_buffers,
                statement_timeout,
                track_commit_timestamp,
                wal_keep_size,
                wal_sender_timeout,
                work_mem,
                session_replication_role,
            },
        )
    }
}

impl Client {
    /// Asks for the Postgres settings of a project.
    pub fn get_postgres_config(&self, project_id: &str) -> (dispatch: Dispatch<PostgresConfig>)
        ensures
            dispatch@ == resource_call(
                self@,
                Method::Get,
                project_resource(project_id@, "/config/database/postgres"@),
                None,
            ),
    {
        let path = project_path(project_id, "/config/database/postgres");
        self.get(path.as_str())
    }

    /// Asks the server to take the settings that `config` sets for a project.
    /// The answer holds the settings as they are afterwards.
    pub fn set_postgres_config(&self, project_id: &str, config: &PostgresConfig) -> (dispatch:
        Dispatch<PostgresConfig>)
        ensures
            dispatch@ == resource_call(
                self@,
                Method::Put,
                project_resource(project_id@, "/config/database/postgres"@),
                Some(config.deep_view().json_text()),
            ),
    {
        let path = project_path(project_id, "/config/database/postgres");
        self.put(path.as_str(), Some(config.to_json()))
    }
}

} // verus!
