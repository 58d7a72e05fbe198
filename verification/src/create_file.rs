//! Creating a file from uploaded data.
use vstd::prelude::*;

use crate::error::{outcome, Outcome, UseCaseError, UseCaseResult};
use crate::flow::Found;
use crate::model::{Creation, FileId, ObjectId, UserId};

verus! {

#[derive(Debug, Clone, Copy, PartialEq, Eq, Structural)]
pub enum Error {
    InvalidName,
    OutOfUsageQuota,
    InsufficientPermissions,
}

impl Error {
    pub fn from_name_error() -> (res: Self)
        ensures
            res == Error::InvalidName,
    {
        Error::InvalidName
    }

    /// An object larger than the remaining quota.
    pub fn from_store_object_error() -> (res: Self)
        ensures
            res == Error::OutOfUsageQuota,
    {
        Error::OutOfUsageQuota
    }

    pub fn from_permissions_error() -> (res: Self)
        ensures
            res == Error::InsufficientPermissions,
    {
        Error::InsufficientPermissions
    }
}

/// What was uploaded: the name and the content type given, the identifier
/// drawn for the object that holds the data, and what storing the data
/// measured of it.
#[derive(Debug, Clone)]
pub struct Upload {
    pub name: Option<String>,
    pub content_type: Option<String>,
    pub object_id: ObjectId,
    pub blake3_digest: [u8; 32],
    pub size: u64,
}

/// A file as it is made.
#[derive(Debug, Clone)]
pub struct File {
    pub id: FileId,
    pub created_at: i64,
    pub author_id: UserId,
    pub object_id: ObjectId,
    pub blake3_digest: [u8; 32],
    pub name: Option<String>,
    /// The content type given; `None` stands for the entity layer's default type.
    pub type_: Option<String>,
    pub size: u64,
}

/// The file made of an upload: the identifier, time and author of its
/// creation, the object, digest and size of the data, and the name and
/// content type given.
pub open spec fn file_made(creation: Creation<FileId>, upload: Upload) -> File {
    File {
        id: creation.id,
        created_at: creation.created_at,
        author_id: creation.author_id,
        object_id: upload.object_id,
        blake3_digest: upload.blake3_digest,
        name: upload.name,
        type_: upload.content_type,
        size: upload.size,
    }
}

/// The outcome of creating a file. With a limited quota and nothing of it
/// left the upload is refused before storing; otherwise the object is stored
/// within what remains, and refused where it does not fit. The file made is
/// given where the user may see it.
pub open spec fn run_outcome(
    may_create_files: bool,
    name_accepted: bool,
    remaining_quota: Option<u64>,
    object_fits: bool,
    upload: Upload,
    creation: Creation<FileId>,
    visible: bool,
) -> Outcome<File, Error> {
    if !may_create_files {
        Outcome::Refused(Error::InsufficientPermissions)
    } else if !name_accepted {
        Outcome::Refused(Error::InvalidName)
    } else if remaining_quota matches Some(r) && (r == 0 || !object_fits) {
        Outcome::Refused(Error::OutOfUsageQuota)
    } else if visible {
        Outcome::Done(file_made(creation, upload))
    } else {
        Outcome::Failed
    }
}

/// Creates a file, given whether the user holds the permission to create
/// files, the verdict on the name (accepted where none is given), the number
/// of bytes the user's quota has left (`None` for no limit), whether the
/// stored object fitted in what was left, the upload, the identifier, time
/// and author of the new file, and whether the user may see the file made.
pub fn run(
    may_create_files: bool,
    name_accepted: bool,
    remaining_quota: Option<u64>,
    object_fits: bool,
    upload: Upload,
    creation: Creation<FileId>,
    visible: bool,
) -> (res: UseCaseResult<File, Error>)
    ensures
        outcome(res) == run_outcome(may_create_files, name_accepted, remaining_quota, object_fits, upload, creation, visible),
{
    if !may_create_files {
        return Err(UseCaseError::UseCase(Error::from_permissions_error()));
    }
    if !name_accepted {
        return Err(UseCaseError::UseCase(Error::from_name_error()));
    }
    if let Some(remaining) = remaining_quota {
        if remaining == 0 {
            return Err(UseCaseError::UseCase(Error::OutOfUsageQuota));
        }
        if !object_fits {
            return Err(UseCaseError::UseCase(Error::from_store_object_error()));
        }
    }
    let file = File {
        id: creation.id,
        created_at: creation.created_at,
        author_id: creation.author_id,
        object_id: upload.object_id,
        blake3_digest: upload.blake3_digest,
        name: upload.name,
        type_: upload.content_type,
        size: upload.size,
    };
    crate::flow::expect_visible(Found { entity: file, visible })
}

/// A change that creating a file makes to the repositories.
#[derive(Debug, Clone, Copy, PartialEq, Eq, Structural)]
pub enum Effect {
    /// Store the uploaded object, refused where it is larger than the given
    /// number of bytes.
    StoreObjectWithin(u64),
    /// Store the uploaded object, with no limit.
    StoreObject,
    /// Store the file made.
    StoreFile,
}

/// The changes creating a file makes, in order: nothing where the user may
/// not create files, the name is refused or no quota is left; otherwise the
/// object is stored (within what the quota leaves, if it is limited), then
/// the file, where the object was stored.
pub open spec fn creation_effects(
    may_create_files: bool,
    name_accepted: bool,
    remaining_quota: Option<u64>,
    object_fits: bool,
) -> Seq<Effect> {
    if !may_create_files || !name_accepted {
        seq![]
    } else {
        match remaining_quota {
            Some(r) => if r == 0 {
                seq![]
            } else if object_fits {
                seq![Effect::StoreObjectWithin(r), Effect::StoreFile]
            } else {
                seq![Effect::StoreObjectWithin(r)]
            },
            None => seq![Effect::StoreObject, Effect::StoreFile],
        }
    }
}

/// Gives the changes creating a file makes, in the order they are made, from
/// the same answers `run` decides on.
pub fn effects(may_create_files: bool, name_accepted: bool, remaining_quota: Option<u64>, object_fits: bool) -> (res: Vec<Effect>)
    ensures
        res@ == creation_effects(may_create_files, name_accepted, remaining_quota, object_fits),
{
    let mut out: Vec<Effect> = Vec::new();
    if !may_create_files || !name_accepted {
        return out;
    }
    match remaining_quota {
        Some(r) => {
            if r == 0 {
                return out;
            }
            out.push(Effect::StoreObjectWithin(r));
            if object_fits {
                out.push(Effect::StoreFile);
            }
        },
        None => {
            out.push(Effect::StoreObject);
            out.push(Effect::StoreFile);
        },
    }
    out
}

/// A file is stored exactly where creating it is not refused: a refusal
/// (missing permission, a refused name, no quota left, an object too large)
/// stores no file.
pub proof fn lemma_file_stored_unless_refused(
    may_create_files: bool,
    name_accepted: bool,
    remaining_quota: Option<u64>,
    object_fits: bool,
    upload: Upload,
    creation: Creation<FileId>,
    visible: bool,
)
    ensures
        creation_effects(may_create_files, name_accepted, remaining_quota, object_fits).contains(Effect::StoreFile)
            <==> !(run_outcome(may_create_files, name_accepted, remaining_quota, object_fits, upload, creation, visible) is Refused),
{
    let e = creation_effects(may_create_files, name_accepted, remaining_quota, object_fits);
    if e.len() == 1 {
        assert(e[0] != Effect::StoreFile);
    }
    if e.len() == 2 {
        assert(e[1] == Effect::StoreFile);
    }
}

} // verus!
