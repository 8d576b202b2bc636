use vstd::prelude::*;
use vstd::string::StringExecFns;
use crate::model::{EfsRequestCondition, EfsRequestSpec, EfsRequestStatus, PhaseView, StatusView};

verus! {

/// The creation token sent with every file-system creation.
pub const CREATION_TOKEN: &'static str = "test";

/// The tag key under which the request's name is recorded.
pub const NAME_TAG: &'static str = "Name";

/// The tag key under which the request's owner is recorded.
pub const OWNER_TAG: &'static str = "Owner";

/// A provider failure, flattened to one of two shapes.
#[derive(Debug, Clone)]
pub enum ProviderFailure {
    /// The provider answered with an error body it did not classify.
    Unknown { body: String },
    /// Any other failure, with its description.
    Other { description: String },
}

impl ProviderFailure {
    /// The human-readable cause carried by the failure.
    pub open spec fn message_view(&self) -> Seq<char> {
        match self {
            ProviderFailure::Unknown { body } => body@,
            ProviderFailure::Other { description } => description@,
        }
    }

    pub fn message(&self) -> (r: String)
        ensures
            r@ == self.message_view(),
    {
        match self {
            ProviderFailure::Unknown { body } => body.clone(),
            ProviderFailure::Other { description } => description.clone(),
        }
    }
}

/// A descriptive tag attached to a created file system.
#[derive(Debug, Clone)]
pub struct FileSystemTag {
    pub key: String,
    pub value: String,
}

/// What is handed to the provider to create one file system.
#[derive(Debug, Clone)]
pub struct CreateFileSystemCall {
    pub creation_token: String,
    pub tags: Vec<FileSystemTag>,
}

/// The tags of a creation call as key/value pairs.
pub open spec fn tags_view(tags: Seq<FileSystemTag>) -> Seq<(Seq<char>, Seq<char>)> {
    tags.map_values(|t: FileSystemTag| (t.key@, t.value@))
}

/// The tags that record a request's name and owner, in that order.
pub open spec fn request_tags(name: Seq<char>, owner: Seq<char>) -> Seq<(Seq<char>, Seq<char>)> {
    seq![(NAME_TAG@, name), (OWNER_TAG@, owner)]
}

/// The creation call for a request: its name and owner become the tags.
pub fn create_file_system_call(spec: &EfsRequestSpec) -> (r: CreateFileSystemCall)
    ensures
        r.creation_token@ == CREATION_TOKEN@,
        tags_view(r.tags@) == request_tags(spec.name@, spec.owner@),
{
    let mut tags: Vec<FileSystemTag> = Vec::new();
    tags.push(FileSystemTag { key: String::from_str(NAME_TAG), value: spec.name.clone() });
    tags.push(FileSystemTag { key: String::from_str(OWNER_TAG), value: spec.owner.clone() });
    let r = CreateFileSystemCall { creation_token: String::from_str(CREATION_TOKEN), tags };
    assert(tags_view(r.tags@) =~= request_tags(spec.name@, spec.owner@));
    r
}

/// The model of what came back from a creation call: the new identifier, or
/// the failure's message.
pub open spec fn outcome_view(outcome: Result<String, ProviderFailure>) -> Result<Seq<char>, Seq<char>> {
    match outcome {
        Ok(id) => Ok(id@),
        Err(f) => Err(f.message_view()),
    }
}

/// The status that follows a creation call: the file system is being created
/// under the returned identifier, or the request failed with the message.
pub open spec fn created_status(outcome: Result<Seq<char>, Seq<char>>) -> StatusView {
    match outcome {
        Ok(id) => StatusView { file_system_id: Some(id), condition: PhaseView::CreatingFileSystem },
        Err(msg) => StatusView { file_system_id: None, condition: PhaseView::Failed { reason: msg } },
    }
}

pub fn status_after_create(outcome: Result<String, ProviderFailure>) -> (r: EfsRequestStatus)
    ensures
        r@ == created_status(outcome_view(outcome)),
{
    match outcome {
        Ok(id) => EfsRequestStatus {
            file_system_id: Some(id),
            condition: EfsRequestCondition::CreatingFileSystem,
        },
        Err(f) => EfsRequestStatus {
            file_system_id: None,
            condition: EfsRequestCondition::Failed { reason: f.message() },
        },
    }
}

} // verus!
