//! Request execution layer of a client for the Supabase Management API.
//!
//! The library prepares authenticated calls, classifies what the transport
//! reports for them and decodes JSON payloads into typed values. It performs
//! no I/O of its own: a call is described by a [`Dispatch`], the caller sends
//! the request it describes and hands back what came of it.
//!
//! ```
//! use supabase_management_rs::{Client, Response};
//!
//! let client = Client::new("your-api-key".to_string());
//! let call = client.list_projects();
//! assert_eq!(call.request().url, "https://api.supabase.com/v1/projects");
//!
//! // Send `call.request()` with `call.authorization()`, then report the
//! // status and the body that came back.
//! let projects = match call.responded(200) {
//!     Response::Accepted(accepted) => accepted.body(Ok(b"[]".to_vec())),
//!     Response::Rejected(rejected) => Err(rejected.text(Ok(String::new()))),
//! };
//! assert!(projects.unwrap().is_empty());
//! ```

pub mod auth;
pub mod client;
pub mod decode;
pub mod dispatch;
pub mod encode;
pub mod error;
pub mod json;
pub mod postgres_configs;
pub mod project;
pub mod query;
pub mod request;
pub mod storage;
pub mod supavisor;
pub mod text;

pub use auth::{generate_access_token, AccessTokenResponse};
pub use client::Client;
pub use decode::Decode;
pub use dispatch::{send_request, Accepted, Dispatch, Rejected, Response};
pub use error::{with_context, Error};
pub use json::{Json, Number};
pub use postgres_configs::{PostgresConfig, SessionReplicationRole};
pub use project::{Database, Project, ServiceHealth, Status};
pub use request::{Body, Method, Request, BASE_URL};
pub use storage::{Bucket, Features, ImageTransformation, S3Protocol, StorageConfig};
pub use supavisor::{DatabaseType, PoolMode, SupavisorConfig};
