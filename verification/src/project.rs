//! Projects: their listing, pausing and restoring, and the health of their
//! services.

use crate::client::{project_path, project_resource, resource_call, Client};
use crate::decode::{member, required, Decode};
use crate::dispatch::Dispatch;
use crate::json::{Json, JsonValue};
use crate::request::Method;
use crate::text::same_text;
use vstd::prelude::*;

verus! {

/// The state of a project or of one of its services.
#[derive(Debug, PartialEq, Eq, Clone, Copy, Structural)]
pub enum Status {
    Inactive,
    ActiveHealthy,
    ActiveUnhealthy,
    ComingUp,
    Unknown,
    GoingDown,
    InitFailed,
    Removed,
    Restoring,
    Upgrading,
    Pausing,
    RestoreFailed,
    Restarting,
    PauseFailed,
    Resizing,
}

impl DeepView for Status {
    type V = Status;

    open spec fn deep_view(&self) -> Status {
        *self
    }
}

impl Status {
    /// The name by which the API calls the status.
    pub open spec fn wire_name(self) -> Seq<char> {
        match self {
            Status::Inactive => "INACTIVE"@,
            Status::ActiveHealthy => "ACTIVE_HEALTHY"@,
            Status::ActiveUnhealthy => "ACTIVE_UNHEALTHY"@,
            Status::ComingUp => "COMING_UP"@,
            Status::Unknown => "UNKNOWN"@,
            Status::GoingDown => "GOING_DOWN"@,
            Status::InitFailed => "INIT_FAILED"@,
            Status::Removed => "REMOVED"@,
            Status::Restoring => "RESTORING"@,
            Status::Upgrading => "UPGRADING"@,
            Status::Pausing => "PAUSING"@,
            Status::RestoreFailed => "RESTORE_FAILED"@,
            Status::Restarting => "RESTARTING"@,
            Status::PauseFailed => "PAUSE_FAILED"@,
            Status::Resizing => "RESIZING"@,
        }
    }

    /// The status that the API calls `name`, if it calls one so.
    pub open spec fn named(name: Seq<char>) -> Option<Status> {
        if exists|status: Status| status.wire_name() == name {
            Some(choose|status: Status| status.wire_name() == name)
        } else {
            None
        }
    }

    /// No two statuses share a name.
    pub proof fn lemma_names_differ(one: Status, other: Status)
        requires
            one != other,
        ensures
            one.wire_name() != other.wire_name(),
    {
        reveal_strlit("INACTIVE");
        reveal_strlit("ACTIVE_HEALTHY");
        reveal_strlit("ACTIVE_UNHEALTHY");
        reveal_strlit("COMING_UP");
        reveal_strlit("UNKNOWN");
        reveal_strlit("GOING_DOWN");
        reveal_strlit("INIT_FAILED");
        reveal_strlit("REMOVED");
        reveal_strlit("RESTORING");
        reveal_strlit("UPGRADING");
        reveal_strlit("PAUSING");
        reveal_strlit("RESTORE_FAILED");
        reveal_strlit("RESTARTING");
        reveal_strlit("PAUSE_FAILED");
        reveal_strlit("RESIZING");
        assert("INACTIVE"@.len() == 8 && "ACTIVE_HEALTHY"@.len() == 14);
        assert("ACTIVE_UNHEALTHY"@.len() == 16 && "COMING_UP"@.len() == 9);
        assert("UNKNOWN"@.len() == 7 && "GOING_DOWN"@.len() == 10);
        assert("INIT_FAILED"@.len() == 11 && "REMOVED"@.len() == 7);
        assert("RESTORING"@.len() == 9 && "UPGRADING"@.len() == 9);
        assert("PAUSING"@.len() == 7 && "RESTORE_FAILED"@.len() == 14);
        assert("RESTARTING"@.len() == 10 && "PAUSE_FAILED"@.len() == 12);
        assert("RESIZING"@.len() == 8);
        assert("INACTIVE"@[0] == 'I' && "ACTIVE_HEALTHY"@[0] == 'A');
        assert("COMING_UP"@[0] == 'C' && "UNKNOWN"@[0] == 'U' && "GOING_DOWN"@[0] == 'G');
        assert("REMOVED"@[0] == 'R' && "RESTORING"@[0] == 'R' && "UPGRADING"@[0] == 'U');
        assert("PAUSING"@[0] == 'P' && "RESTORE_FAILED"@[0] == 'R');
        assert("RESTARTING"@[0] == 'R' && "RESIZING"@[0] == 'R');
    }

    /// Each status is the one that its own name names.
    pub proof fn lemma_named_by_own_name(status: Status)
        ensures
            Status::named(status.wire_name()) == Some(status),
    {
        let found = choose|other: Status| other.wire_name() == status.wire_name();
        if found != status {
            Status::lemma_names_differ(found, status);
        }
    }

    /// A text that is the name of no status names none.
    proof fn lemma_no_name(name: Seq<char>)
        requires
            name != Status::Inactive.wire_name(),
            name != Status::ActiveHealthy.wire_name(),
            name != Status::ActiveUnhealthy.wire_name(),
            name != Status::ComingUp.wire_name(),
            name != Status::Unknown.wire_name(),
            name != Status::GoingDown.wire_name(),
            name != Status::InitFailed.wire_name(),
            name != Status::Removed.wire_name(),
            name != Status::Restoring.wire_name(),
            name != Status::Upgrading.wire_name(),
            name != Status::Pausing.wire_name(),
            name != Status::RestoreFailed.wire_name(),
            name != Status::Restarting.wire_name(),
            name != Status::PauseFailed.wire_name(),
            name != Status::Resizing.wire_name(),
        ensures
            Status::named(name) is None,
    {
        assert forall|status: Status| status.wire_name() != name by {
            match status {
                Status::Inactive => {},
                Status::ActiveHealthy => {},
                Status::ActiveUnhealthy => {},
                Status::ComingUp => {},
                Status::Unknown => {},
                Status::GoingDown => {},
                Status::InitFailed => {},
                Status::Removed => {},
                Status::Restoring => {},
                Status::Upgrading => {},
                Status::Pausing => {},
                Status::RestoreFailed => {},
                Status::Restarting => {},
                Status::PauseFailed => {},
                Status::Resizing => {},
            }
        }
    }

    /// The status that the API calls `name`.
    pub fn from_wire_name(name: &str) -> (status: Option<Status>)
        ensures
            status == Status::named(name@),
    {
        let status = if same_text(name, "INACTIVE") {
            Some(Status::Inactive)
        } else if same_text(name, "ACTIVE_HEALTHY") {
            Some(Status::ActiveHealthy)
        } else if same_text(name, "ACTIVE_UNHEALTHY") {
            Some(Status::ActiveUnhealthy)
        } else if same_text(name, "COMING_UP") {
            Some(Status::ComingUp)
        } else if same_text(name, "UNKNOWN") {
            Some(Status::Unknown)
        } else if same_text(name, "GOING_DOWN") {
            Some(Status::GoingDown)
        } else if same_text(name, "INIT_FAILED") {
            Some(Status::InitFailed)
        } else if same_text(name, "REMOVED") {
            Some(Status::Removed)
        } else if same_text(name, "RESTORING") {
            Some(Status::Restoring)
        } else if same_text(name, "UPGRADING") {
            Some(Status::Upgrading)
        } else if same_text(name, "PAUSING") {
            Some(Status::Pausing)
        } else if same_text(name, "RESTORE_FAILED") {
            Some(Status::RestoreFailed)
        } else if same_text(name, "RESTARTING") {
            Some(Status::Restarting)
        } else if same_text(name, "PAUSE_FAILED") {
            Some(Status::PauseFailed)
        } else if same_text(name, "RESIZING") {
            Some(Status::Resizing)
        } else {
            None
        };
        proof {
            match status {
                Some(found) => {
                    assert(found.wire_name() == name@);
                    Status::lemma_named_by_own_name(found);
                },
                None => {
                    Status::lemma_no_name(name@);
                },
            }
        }
        status
    }
}

impl Decode for Status {
    open spec fn shape(json: JsonValue) -> Option<Status> {
        match json {
            JsonValue::Text(name) => Status::named(name),
            _ => None,
        }
    }

    open spec fn name() -> Seq<char> {
        "Status"@
    }

    fn target_name() -> (name: String) {
        String::from_str("Status")
    }

    fn decode(json: &Json) -> (decoded: Option<Status>) {
        match json {
            Json::Text(name) => Status::from_wire_name(name.as_str()),
            _ => None,
        }
    }
}

/// The database of a project.
#[derive(Debug)]
pub struct Database {
    pub host: String,
    pub version: String,
    pub postgres_engine: String,
    pub release_channel: String,
}

/// The mathematical value of a [`Database`].
pub struct DatabaseView {
    pub host: Seq<char>,
    pub version: Seq<char>,
    pub postgres_engine: Seq<char>,
    pub release_channel: Seq<char>,
}

impl DeepView for Database {
    type V = DatabaseView;

    open spec fn deep_view(&self) -> DatabaseView {
        DatabaseView {
            host: self.host@,
            version: self.version@,
            postgres_engine: self.postgres_engine@,
            release_channel: self.release_channel@,
        }
    }
}

impl Decode for Database {
    open spec fn shape(json: JsonValue) -> Option<DatabaseView> {
        if json is Object && member::<String>(json, "host"@) is Some && member::<String>(
            json,
            "version"@,
        ) is Some && member::<String>(json, "postgres_engine"@) is Some && member::<String>(
            json,
            "release_channel"@,
        ) is Some {
            Some(
                DatabaseView {
                    host: member::<String>(json, "host"@)->0,
                    version: member::<String>(json, "version"@)->0,
                    postgres_engine: member::<String>(json, "postgres_engine"@)->0,
                    release_channel: member::<String>(json, "release_channel"@)->0,
                },
            )
        } else {
            None
        }
    }

    open spec fn name() -> Seq<char> {
        "Database"@
    }

    fn target_name() -> (name: String) {
        String::from_str("Database")
    }

    fn decode(json: &Json) -> (decoded: Option<Database>) {
        match json {
            Json::Object(_) => {},
            _ => {
                return None;
            },
        }
        let host = required::<String>(json, "host")?;
        let version = required::<String>(json, "version")?;
        let postgres_engine = required::<String>(json, "postgres_engine")?;
        let release_channel = required::<String>(json, "release_channel")?;
        Some(Database { host, version, postgres_engine, release_channel })
    }
}

/// A project.
#[derive(Debug)]
pub struct Project {
    pub id: String,
    pub organization_id: String,
    pub name: String,
    pub region: String,
    pub created_at: String,
    pub status: Status,
    pub database: Database,
}

/// The mathematical value of a [`Project`].
pub struct ProjectView {
    pub id: Seq<char>,
    pub organization_id: Seq<char>,
    pub name: Seq<char>,
    pub region: Seq<char>,
    pub created_at: Seq<char>,
    pub status: Status,
    pub database: DatabaseView,
}

impl DeepView for Project {
    type V = ProjectView;

    open spec fn deep_view(&self) -> ProjectView {
        ProjectView {
            id: self.id@,
            organization_id: self.organization_id@,
            name: self.name@,
            region: self.region@,
            created_at: self.created_at@,
            status: self.status,
            database: self.database.deep_view(),
        }
    }
}

impl Decode for Project {
    open spec fn shape(json: JsonValue) -> Option<ProjectView> {
        if json is Object && member::<String>(json, "id"@) is Some && member::<String>(
            json,
            "organization_id"@,
        ) is Some && member::<String>(json, "name"@) is Some && member::<String>(
            json,
            "region"@,
        ) is Some && member::<String>(json, "created_at"@) is Some && member::<Status>(
            json,
            "status"@,
        ) is Some && member::<Database>(json, "database"@) is Some {
            Some(
                ProjectView {
                    id: member::<String>(json, "id"@)->0,
                    organization_id: member::<String>(json, "organization_id"@)->0,
                    name: member::<String>(json, "name"@)->0,
                    region: member::<String>(json, "region"@)->0,
                    created_at: member::<String>(json, "created_at"@)->0,
                    status: member::<Status>(json, "status"@)->0,
                    database: member::<Database>(json, "database"@)->0,
                },
            )
        } else {
            None
        }
    }

    open spec fn name() -> Seq<char> {
        "Project"@
    }

    fn target_name() -> (name: String) {
        String::from_str("Project")
    }

    fn decode(json: &Json) -> (decoded: Option<Project>) {
        match json {
            Json::Object(_) => {},
            _ => {
                return None;
            },
        }
        let id = required::<String>(json, "id")?;
        let organization_id = required::<String>(json, "organization_id")?;
        let name = required::<String>(json, "name")?;
        let region = required::<String>(json, "region")?;
        let created_at = required::<String>(json, "created_at")?;
        let status = required::<Status>(json, "status")?;
        let database = required::<Database>(json, "database")?;
        Some(Project { id, organization_id, name, region, created_at, status, database })
    }
}

/// The health of one service of a project.
#[derive(Debug)]
pub struct ServiceHealth {
    pub name: String,
    pub healthy: bool,
    pub status: Status,
}

/// The mathematical value of a [`ServiceHealth`].
pub struct ServiceHealthView {
    pub name: Seq<char>,
    pub healthy: bool,
    pub status: Status,
}

impl DeepView for ServiceHealth {
    type V = ServiceHealthView;

    open spec fn deep_view(&self) -> ServiceHealthView {
        ServiceHealthView { name: self.name@, healthy: self.healthy, status: self.status }
    }
}

impl Clone for ServiceHealth {
    fn clone(&self) -> (copy: Self)
        ensures
            copy.deep_view() == self.deep_view(),
    {
        ServiceHealth {
            name: self.name.clone(),
            healthy: self.healthy,
            status: self.status,
        }
    }
}

impl Decode for ServiceHealth {
    open spec fn shape(json: JsonValue) -> Option<ServiceHealthView> {
        if json is Object && member::<String>(json, "name"@) is Some && member::<bool>(
            json,
            "healthy"@,
        ) is Some && member::<Status>(json, "status"@) is Some {
            Some(
                ServiceHealthView {
                    name: member::<String>(json, "name"@)->0,
                    healthy: member::<bool>(json, "healthy"@)->0,
                    status: member::<Status>(json, "status"@)->0,
                },
            )
        } else {
            None
        }
    }

    open spec fn name() -> Seq<char> {
        "ServiceHealth"@
    }

    fn target_name() -> (name: String) {
        String::from_str("ServiceHealth")
    }

    fn decode(json: &Json) -> (decoded: Option<ServiceHealth>) {
        match json {
            Json::Object(_) => {},
            _ => {
                return None;
            },
        }
        let name = required::<String>(json, "name")?;
        let healthy = required::<bool>(json, "healthy")?;
        let status = required::<Status>(json, "status")?;
        Some(ServiceHealth { name, healthy, status })
    }
}

impl Client {
    /// Lists all projects that the user has created.
    pub fn list_projects(&self) -> (dispatch: Dispatch<Vec<Project>>)
        ensures
            dispatch@ == resource_call(self@, Method::Get, "projects"@, None),
    {
        self.get("projects")
    }

    /// Pauses an active project. The API answers 400 if the project is paused
    /// already.
    pub fn pause_project(&self, project_id: &str) -> (dispatch: Dispatch<()>)
        ensures
            dispatch@ == resource_call(
                self@,
                Method::Post,
                project_resource(project_id@, "/pause"@),
                None,
            ),
    {
        let path = project_path(project_id, "/pause");
        self.post(path.as_str(), None)
    }

    /// Restores a paused or inactive project.
    pub fn restore_project(&self, project_id: &str) -> (dispatch: Dispatch<()>)
        ensures
            dispatch@ == resource_call(
                self@,
                Method::Post,
                project_resource(project_id@, "/restore"@),
                None,
            ),
    {
        let path = project_path(project_id, "/restore");
        self.post(path.as_str(), None)
    }

    /// Asks for the health of a project's auth, database, pooler and storage
    /// services.
    pub fn get_project_health(&self, project_id: &str) -> (dispatch: Dispatch<
        Vec<ServiceHealth>,
    >)
        ensures
            dispatch@ == resource_call(
                self@,
                Method::Get,
                project_resource(project_id@, "/health?services=auth,db,pooler,storage"@),
                None,
            ),
    {
        let path = project_path(project_id, "/health?services=auth,db,pooler,storage");
        self.get(path.as_str())
    }
}

} // verus!
