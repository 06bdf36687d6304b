//! The execution of SQL on a project's database.

use crate::client::{project_path, project_resource, resource_call, Client};
use crate::dispatch::Dispatch;
use crate::encode::{object, object_text, quote, text_member};
use crate::request::Method;
use vstd::prelude::*;

verus! {

/// The text of the payload that asks for `query` to be run: a JSON object
/// with the one member `query`.
pub open spec fn query_payload(query: Seq<char>) -> Seq<char> {
    object_text(seq![text_member("query"@, query)])
}

impl Client {
    /// Prepares the execution of `query` on the database of a project. The
    /// rows come back as a JSON document: decode them into a type of your
    /// own, or take them as a [`crate::json::Json`].
    pub fn query<T>(&self, project_id: &str, query: &str) -> (dispatch: Dispatch<T>)
        ensures
            dispatch@ == resource_call(
                self@,
                Method::Post,
                project_resource(project_id@, "/database/query"@),
                Some(query_payload(query@)),
            ),
    {
        let mut members: Vec<(String, String)> = Vec::new();
        members.push((quote("query"), quote(query)));
        assert(members.deep_view() =~= seq![text_member("query"@, query@)]);
        let path = project_path(project_id, "/database/query");
        self.post(path.as_str(), Some(object(&members)))
    }
}

} // verus!
