//! Group records and the pure rules of the group endpoints: building a new
//! group around a fresh identifier, normalizing a fetched row, and the
//! responses the group handlers owe.

use vstd::prelude::*;
use vstd::string::{StrSliceExecFns, StringExecFns};

use crate::ids::new_uuid_string;
use crate::responses::MetaResponse;
use crate::users::MsgError;

verus! {

/// A stored group.
#[derive(Debug)]
pub struct Group {
    pub group_id: String,
    pub name: String,
    pub description: Option<String>,
}

impl Clone for Group {
    fn clone(&self) -> (r: Self)
        ensures
            r == *self,
    {
        Group {
            group_id: self.group_id.clone(),
            name: self.name.clone(),
            description: match &self.description {
                Some(d) => Some(d.clone()),
                None => None,
            },
        }
    }
}

/// Response carrying one group.
#[derive(Debug)]
pub struct GroupResponse {
    pub meta: MetaResponse,
    pub data: Group,
}

/// Response carrying one page of groups.
#[derive(Debug)]
pub struct GroupsResponse {
    pub meta: MetaResponse,
    pub data: Vec<Group>,
}

/// Form contents of a group creation.
#[derive(Debug)]
pub struct GroupParam {
    pub name: String,
    pub description: Option<String>,
}

/// Builds the record of a new group around a fresh identifier; an absent
/// description is stored as empty text.
pub fn prepare_group(name: &str, desc: &str) -> (r: Group)
    ensures
        r.name@ == name@,
        r.description matches Some(d) && d@ == desc@,
        r.group_id@.len() == 36,
{
    let group_id = new_uuid_string();
    let description = if !desc.is_empty() {
        String::from_str(desc)
    } else {
        String::new()
    };
    Group { group_id, name: String::from_str(name), description: Some(description) }
}

/// Normalizes a fetched group row: a row without a description is handed
/// out with empty text instead.
pub fn normalize_group(g: Group) -> (r: Group)
    ensures
        r.group_id == g.group_id,
        r.name == g.name,
        g.description matches Some(d) ==> r.description == Some(d),
        g.description is None ==> (r.description matches Some(d) && d@ == Seq::<char>::empty()),
{
    match g.description {
        Some(d) => Group { group_id: g.group_id, name: g.name, description: Some(d) },
        None => Group { group_id: g.group_id, name: g.name, description: Some(String::new()) },
    }
}

/// The response owed for a group creation.
pub fn create_group_outcome(result: Result<Group, MsgError>) -> (r: Result<
    GroupResponse,
    MetaResponse,
>)
    ensures
        result matches Ok(g) ==> (r matches Ok(a) && a.meta.code == 200 && a.meta.message@
            == "Success"@ && a.data == g),
        result matches Err(e) ==> (r matches Err(m) && m.code == 400 && m.message@ == e.0@),
{
    match result {
        Ok(g) => Ok(
            GroupResponse {
                meta: MetaResponse { code: 200, message: String::from_str("Success") },
                data: g,
            },
        ),
        Err(e) => Err(MetaResponse { code: 400, message: e.0 }),
    }
}

/// The response owed for a group listing.
pub fn groups_outcome(result: Result<Vec<Group>, MsgError>) -> (r: Result<
    GroupsResponse,
    MetaResponse,
>)
    ensures
        result matches Ok(g) ==> (r matches Ok(a) && a.meta.code == 200 && a.meta.message@
            == "Success"@ && a.data == g),
        result matches Err(e) ==> (r matches Err(m) && m.code == 400 && m.message@ == e.0@),
{
    match result {
        Ok(g) => Ok(
            GroupsResponse {
                meta: MetaResponse { code: 200, message: String::from_str("Success") },
                data: g,
            },
        ),
        Err(e) => Err(MetaResponse { code: 400, message: e.0 }),
    }
}

} // verus!
