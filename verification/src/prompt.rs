//! The response contract of the auxiliary prompt management API: for each
//! operation, what reply the handler owes for each outcome of the
//! underlying prompt store. The store itself is an external collaborator;
//! these functions decide status, message and payload from its outcome.

use vstd::prelude::*;
use vstd::string::StringExecFns;

verus! {

/// HTTP status of a successful reply.
pub const STATUS_OK: u16 = 200;

/// HTTP status of a reply with no content.
pub const STATUS_NO_CONTENT: u16 = 204;

/// HTTP status of a reply to a request the store rejected.
pub const STATUS_BAD_REQUEST: u16 = 400;

/// HTTP status of a reply about a resource the store does not hold.
pub const STATUS_NOT_FOUND: u16 = 404;

/// HTTP status of a reply about an internal failure.
pub const STATUS_INTERNAL_ERROR: u16 = 500;

/// A stored prompt, as the operations here read it.
#[derive(Debug, PartialEq, Eq)]
pub struct PromptRecord {
    pub id: String,
    pub name: String,
}

/// The reply a single-resource prompt operation produces.
#[derive(Debug, PartialEq, Eq)]
pub struct PromptReply {
    pub status: u16,
    pub message: String,
    pub id: Option<String>,
    pub name: Option<String>,
}

/// The reply the listing operation produces.
#[derive(Debug, PartialEq, Eq)]
pub struct PromptListReply {
    pub status: u16,
    pub message: String,
    pub records: Vec<PromptRecord>,
}

/// Reply owed for a listing: the records with success, or an internal
/// error carrying the store's message.
pub fn list_prompts(outcome: Result<Vec<PromptRecord>, String>) -> (r: PromptListReply)
    ensures
        match outcome {
            Ok(records) => r.status == STATUS_OK && r.records == records && r.message@
                =~= Seq::<char>::empty(),
            Err(e) => r.status == STATUS_INTERNAL_ERROR && r.message@ == e@ && r.records@.len()
                == 0,
        },
{
    match outcome {
        Ok(records) => {
            proof {
                reveal_strlit("");
                assert(""@ =~= Seq::<char>::empty());
            }
            PromptListReply { status: STATUS_OK, message: String::from_str(""), records }
        },
        Err(e) => PromptListReply { status: STATUS_INTERNAL_ERROR, message: e, records: Vec::new() },
    }
}

/// Reply owed for a creation: the new record's identity with success, or
/// an internal error carrying the store's message.
pub fn create_prompt(outcome: Result<PromptRecord, String>) -> (r: PromptReply)
    ensures
        match outcome {
            Ok(p) => r.status == STATUS_OK && r.message@ == "Prompt created"@ && (r.id matches Some(
                i,
            ) && i@ == p.id@) && (r.name matches Some(n) && n@ == p.name@),
            Err(e) => r.status == STATUS_INTERNAL_ERROR && r.message@ == e@ && r.id is None
                && r.name is None,
        },
{
    match outcome {
        Ok(p) => PromptReply {
            status: STATUS_OK,
            message: String::from_str("Prompt created"),
            id: Some(p.id),
            name: Some(p.name),
        },
        Err(e) => PromptReply { status: STATUS_INTERNAL_ERROR, message: e, id: None, name: None },
    }
}

/// Reply owed for a point read: the record's identity with success, or
/// not-found carrying the store's message.
pub fn get_prompt(outcome: Result<PromptRecord, String>) -> (r: PromptReply)
    ensures
        match outcome {
            Ok(p) => r.status == STATUS_OK && r.message@ == "Prompt retrieved"@ && (r.id
                matches Some(i) && i@ == p.id@) && (r.name matches Some(n) && n@ == p.name@),
            Err(e) => r.status == STATUS_NOT_FOUND && r.message@ == e@ && r.id is None && r.name
                is None,
        },
{
    match outcome {
        Ok(p) => PromptReply {
            status: STATUS_OK,
            message: String::from_str("Prompt retrieved"),
            id: Some(p.id),
            name: Some(p.name),
        },
        Err(e) => PromptReply { status: STATUS_NOT_FOUND, message: e, id: None, name: None },
    }
}

/// Reply owed for an update: the record's identity with success, or
/// bad-request carrying the store's message.
pub fn update_prompt(outcome: Result<PromptRecord, String>) -> (r: PromptReply)
    ensures
        match outcome {
            Ok(p) => r.status == STATUS_OK && r.message@ == "Prompt updated"@ && (r.id matches Some(
                i,
            ) && i@ == p.id@) && (r.name matches Some(n) && n@ == p.name@),
            Err(e) => r.status == STATUS_BAD_REQUEST && r.message@ == e@ && r.id is None && r.name
                is None,
        },
{
    match outcome {
        Ok(p) => PromptReply {
            status: STATUS_OK,
            message: String::from_str("Prompt updated"),
            id: Some(p.id),
            name: Some(p.name),
        },
        Err(e) => PromptReply { status: STATUS_BAD_REQUEST, message: e, id: None, name: None },
    }
}

/// Reply owed for a deletion: no content with success, or not-found
/// carrying the store's message.
pub fn delete_prompt(outcome: Result<(), String>) -> (r: PromptReply)
    ensures
        match outcome {
            Ok(u) => r.status == STATUS_NO_CONTENT && r.message@ =~= Seq::<char>::empty() && r.id
                is None && r.name is None,
            Err(e) => r.status == STATUS_NOT_FOUND && r.message@ == e@ && r.id is None && r.name
                is None,
        },
{
    match outcome {
        Ok(_) => {
            proof {
                reveal_strlit("");
                assert(""@ =~= Seq::<char>::empty());
            }
            PromptReply {
                status: STATUS_NO_CONTENT,
                message: String::from_str(""),
                id: None,
                name: None,
            }
        },
        Err(e) => PromptReply { status: STATUS_NOT_FOUND, message: e, id: None, name: None },
    }
}

/// Reply owed for an activation: a confirmation with success, or
/// bad-request carrying the store's message.
pub fn activate_prompt(outcome: Result<(), String>) -> (r: PromptReply)
    ensures
        match outcome {
            Ok(u) => r.status == STATUS_OK && r.message@ == "Prompt activated successfully"@
                && r.id is None && r.name is None,
            Err(e) => r.status == STATUS_BAD_REQUEST && r.message@ == e@ && r.id is None && r.name
                is None,
        },
{
    match outcome {
        Ok(_) => PromptReply {
            status: STATUS_OK,
            message: String::from_str("Prompt activated successfully"),
            id: None,
            name: None,
        },
        Err(e) => PromptReply { status: STATUS_BAD_REQUEST, message: e, id: None, name: None },
    }
}

} // verus!
