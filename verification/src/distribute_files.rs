//! Distributing files to projects: each project gets a file sharing scoped to it.
use vstd::prelude::*;

use crate::domain::{DistributionFilesErrorKind, NonSharableFileError};
use crate::error::{outcome, verdict, Outcome, UseCaseError, UseCaseResult};
use crate::flow::{first_error, visible_entity, Found};
use crate::model::{Creation, FileDistributionId, FileId, FileSharingId, ProjectId, UserId};

verus! {

/// The file to distribute to a project: a file of the user's to share, or an
/// existing file sharing.
#[derive(Debug, Clone, Copy, PartialEq, Eq, Structural)]
pub enum InputFile {
    File(FileId),
    Sharing(FileSharingId),
}

/// A project and the file it gets.
#[derive(Debug, Clone, Copy, PartialEq, Eq, Structural)]
pub struct InputFileMapping {
    pub project_id: ProjectId,
    pub file: InputFile,
}

#[derive(Debug, Clone)]
pub struct Input {
    pub name: String,
    pub description: String,
    pub files: Vec<InputFileMapping>,
}

#[derive(Debug, Clone, Copy, PartialEq, Eq, Structural)]
pub enum Error {
    InsufficientPermissions,
    InvalidName,
    InvalidDescription,
    NonSharableFile,
    NoFiles,
    TooManyFiles,
    DuplicatedProjectId(ProjectId),
    ProjectNotFound,
    FileNotFound,
    FileSharingNotFound,
    OutOfScopeFileSharing,
}

impl Error {
    pub fn from_name_error() -> (res: Self)
        ensures
            res == Error::InvalidName,
    {
        Error::InvalidName
    }

    pub fn from_description_error() -> (res: Self)
        ensures
            res == Error::InvalidDescription,
    {
        Error::InvalidDescription
    }

    pub fn from_share_error(err: NonSharableFileError) -> (res: Self)
        ensures
            res == Error::NonSharableFile,
    {
        Error::NonSharableFile
    }

    /// The error for each reason the entity layer refuses the distributed files.
    pub open spec fn files_error_of(kind: DistributionFilesErrorKind) -> Error {
        match kind {
            DistributionFilesErrorKind::Empty => Error::NoFiles,
            DistributionFilesErrorKind::TooLong => Error::TooManyFiles,
            DistributionFilesErrorKind::Duplicated(id) => Error::DuplicatedProjectId(id),
        }
    }

    pub fn from_files_error(kind: DistributionFilesErrorKind) -> (res: Self)
        ensures
            res == Self::files_error_of(kind),
    {
        match kind {
            DistributionFilesErrorKind::Empty => Error::NoFiles,
            DistributionFilesErrorKind::TooLong => Error::TooManyFiles,
            DistributionFilesErrorKind::Duplicated(id) => Error::DuplicatedProjectId(id),
        }
    }

    pub fn from_permissions_error() -> (res: Self)
        ensures
            res == Error::InsufficientPermissions,
    {
        Error::InsufficientPermissions
    }
}

/// What the repositories and the entity layer gave for the file of one project.
pub enum FileLookup {
    /// A file to share: whether it exists and the user may see it, the
    /// identifier of the sharing made of it in the project's scope (or why it
    /// may not be shared), and whether that sharing's scope contains the project.
    File { found: bool, shared: Result<FileSharingId, NonSharableFileError>, contained: bool },
    /// An existing sharing, with whether its scope contains the project.
    Sharing { sharing: Option<Found<FileSharingId>>, contained: bool },
}

/// A new file sharing to store, scoped to a project.
#[derive(Debug, Clone, Copy, PartialEq, Eq, Structural)]
pub struct ProjectSharing {
    pub sharing_id: FileSharingId,
    pub project: ProjectId,
}

/// What taking the file of one project comes to: the new sharing to store
/// first, if any, then the sharing taken.
#[derive(Debug)]
pub struct SharingDecision {
    pub store: Option<FileSharingId>,
    pub result: UseCaseResult<FileSharingId, Error>,
}

/// The outcome of taking the file sharing of one project.
pub open spec fn file_sharing_outcome(lookup: FileLookup) -> Outcome<FileSharingId, Error> {
    match lookup {
        FileLookup::File { found, shared, contained } =>
            if !found {
                Outcome::Refused(Error::FileNotFound)
            } else {
                match shared {
                    Err(_) => Outcome::Refused(Error::NonSharableFile),
                    Ok(s) => if contained { Outcome::Done(s) } else { Outcome::Failed },
                }
            },
        FileLookup::Sharing { sharing, contained } => match visible_entity(sharing) {
            None => Outcome::Refused(Error::FileSharingNotFound),
            Some(s) => if contained { Outcome::Done(s) } else { Outcome::Refused(Error::OutOfScopeFileSharing) },
        },
    }
}

/// The sharing stored while taking the file of one project: the one made of
/// a file the user may see and may share. An existing sharing, or a file
/// refused, stores nothing.
pub open spec fn file_sharing_store(lookup: FileLookup) -> Option<FileSharingId> {
    match lookup {
        FileLookup::File { found, shared, contained } => match shared {
            Ok(s) => if found { Some(s) } else { None },
            Err(_) => None,
        },
        FileLookup::Sharing { .. } => None,
    }
}

/// Takes the file sharing of one project: a file the user may see is shared
/// in the project's scope, and the new sharing stored; an existing sharing
/// the user may see must have the project in its scope.
pub fn to_file_sharing(lookup: FileLookup) -> (res: SharingDecision)
    ensures
        outcome(res.result) == file_sharing_outcome(lookup),
        res.store == file_sharing_store(lookup),
{
    match lookup {
        FileLookup::File { found, shared, contained } => {
            if !found {
                return SharingDecision { store: None, result: Err(UseCaseError::UseCase(Error::FileNotFound)) };
            }
            let sharing = match shared {
                Ok(s) => s,
                Err(e) => return SharingDecision { store: None, result: Err(UseCaseError::UseCase(Error::from_share_error(e))) },
            };
            if !contained {
                return SharingDecision {
                    store: Some(sharing),
                    result: Err(UseCaseError::Internal(crate::error::internal_error("Condition failed: the sharing's scope contains the project"))),
                };
            }
            SharingDecision { store: Some(sharing), result: Ok(sharing) }
        },
        FileLookup::Sharing { sharing, contained } => {
            let sharing = match sharing {
                Some(s) => {
                    if !s.visible {
                        return SharingDecision { store: None, result: Err(UseCaseError::UseCase(Error::FileSharingNotFound)) };
                    }
                    s.entity
                },
                None => return SharingDecision { store: None, result: Err(UseCaseError::UseCase(Error::FileSharingNotFound)) },
            };
            if !contained {
                return SharingDecision { store: None, result: Err(UseCaseError::UseCase(Error::OutOfScopeFileSharing)) };
            }
            SharingDecision { store: None, result: Ok(sharing) }
        },
    }
}

/// What taking one mapping comes to: the new sharing to store first, if any,
/// then the project and the sharing it gets.
#[derive(Debug)]
pub struct MappingDecision {
    pub store: Option<ProjectSharing>,
    pub result: UseCaseResult<(ProjectId, FileSharingId), Error>,
}

/// The outcome of one mapping: the project must exist and be visible to the
/// user before its file is looked at.
pub open spec fn mapping_outcome(project: Option<Found<ProjectId>>, file: FileLookup) -> Outcome<(ProjectId, FileSharingId), Error> {
    match visible_entity(project) {
        None => Outcome::Refused(Error::ProjectNotFound),
        Some(p) => match file_sharing_outcome(file) {
            Outcome::Done(s) => Outcome::Done((p, s)),
            Outcome::Refused(e) => Outcome::Refused(e),
            Outcome::Failed => Outcome::Failed,
        },
    }
}

/// The sharing stored while taking one mapping: none where the project is
/// not found, otherwise what taking its file stores, scoped to the project.
pub open spec fn mapping_store(project: Option<Found<ProjectId>>, file: FileLookup) -> Option<ProjectSharing> {
    match visible_entity(project) {
        None => None,
        Some(p) => match file_sharing_store(file) {
            Some(s) => Some(ProjectSharing { sharing_id: s, project: p }),
            None => None,
        },
    }
}

/// Takes the project of a mapping and the file sharing it gets.
pub fn to_mapping(project: Option<Found<ProjectId>>, file: FileLookup) -> (res: MappingDecision)
    ensures
        outcome(res.result) == mapping_outcome(project, file),
        res.store == mapping_store(project, file),
{
    let p = match crate::flow::take_visible(project, Error::ProjectNotFound) {
        Ok(p) => p,
        Err(e) => return MappingDecision { store: None, result: Err(e) },
    };
    let decision = to_file_sharing(file);
    let store = match decision.store {
        Some(s) => Some(ProjectSharing { sharing_id: s, project: p }),
        None => None,
    };
    match decision.result {
        Ok(s) => MappingDecision { store, result: Ok((p, s)) },
        Err(e) => MappingDecision { store, result: Err(e) },
    }
}

/// What taking each mapping gave.
pub open spec fn results(mappings: Seq<MappingDecision>) -> Seq<UseCaseResult<(ProjectId, FileSharingId), Error>> {
    mappings.map_values(|m: MappingDecision| m.result)
}

/// The files taken: the project and the sharing of each mapping, in order.
pub open spec fn taken_files(mappings: Seq<MappingDecision>) -> Seq<(ProjectId, FileSharingId)> {
    crate::flow::ok_values(results(mappings))
}

/// The outcome of distributing files. The mappings are taken in order and the
/// first that is not taken decides; the sharings taken are then checked
/// together by the entity layer (`files`), and the distribution made of them
/// is given where the user may see it.
pub open spec fn run_outcome(
    may_distribute_files: bool,
    name_accepted: bool,
    description_accepted: bool,
    mappings: Seq<MappingDecision>,
    files: Result<(), DistributionFilesErrorKind>,
    visible: bool,
) -> Outcome<(), Error> {
    if !may_distribute_files {
        Outcome::Refused(Error::InsufficientPermissions)
    } else if !name_accepted {
        Outcome::Refused(Error::InvalidName)
    } else if !description_accepted {
        Outcome::Refused(Error::InvalidDescription)
    } else {
        match first_error(results(mappings)) {
            Some(UseCaseError::UseCase(e)) => Outcome::Refused(e),
            Some(UseCaseError::Internal(_)) => Outcome::Failed,
            None => match files {
                Err(kind) => Outcome::Refused(Error::files_error_of(kind)),
                Ok(()) => if visible { Outcome::Done(()) } else { Outcome::Failed },
            },
        }
    }
}

/// A file distribution as it is made.
#[derive(Debug, Clone)]
pub struct FileDistribution {
    pub id: FileDistributionId,
    pub created_at: i64,
    pub author_id: UserId,
    pub name: String,
    pub description: String,
    /// Each project with the sharing it gets, in the order of the mappings.
    pub files: Vec<(ProjectId, FileSharingId)>,
}

impl FileDistribution {
    /// Whether this is the distribution made with the identifier, time and
    /// author of `creation`, the name and description given, and `files`.
    pub open spec fn made_of(
        self,
        creation: Creation<FileDistributionId>,
        name: String,
        description: String,
        files: Seq<(ProjectId, FileSharingId)>,
    ) -> bool {
        &&& self.id == creation.id
        &&& self.created_at == creation.created_at
        &&& self.author_id == creation.author_id
        &&& self.name == name
        &&& self.description == description
        &&& self.files@ == files
    }
}

/// A change that distributing files makes to the repositories.
#[derive(Debug, Clone, Copy, PartialEq, Eq, Structural)]
pub enum Effect {
    /// Store a sharing made of a file for a project.
    StoreSharing(ProjectSharing),
    /// Store the distribution made.
    StoreDistribution,
}

/// The sharings stored while taking the mappings in order, up to and
/// including the first that is not taken.
pub open spec fn stored_sharings(mappings: Seq<MappingDecision>) -> Seq<Effect>
    decreases mappings.len(),
{
    if mappings.len() == 0 {
        seq![]
    } else {
        let head = match mappings[0].store {
            Some(s) => seq![Effect::StoreSharing(s)],
            None => seq![],
        };
        if mappings[0].result is Err {
            head
        } else {
            head + stored_sharings(mappings.drop_first())
        }
    }
}

/// The changes distributing files makes, in order: nothing where the user
/// may not distribute files or the name or description is refused; otherwise
/// the sharings made while taking the mappings, then the distribution, where
/// every mapping was taken and the entity layer accepted the files.
pub open spec fn distribution_effects(
    may_distribute_files: bool,
    name_accepted: bool,
    description_accepted: bool,
    mappings: Seq<MappingDecision>,
    files: Result<(), DistributionFilesErrorKind>,
) -> Seq<Effect> {
    if !may_distribute_files || !name_accepted || !description_accepted {
        seq![]
    } else {
        stored_sharings(mappings) + (if first_error(results(mappings)) is None && files is Ok {
            seq![Effect::StoreDistribution]
        } else {
            seq![]
        })
    }
}

/// Gives the changes distributing files makes, in the order they are made,
/// from the same answers `run` decides on.
pub fn effects(
    may_distribute_files: bool,
    name_accepted: bool,
    description_accepted: bool,
    mappings: &Vec<MappingDecision>,
    files: &Result<(), DistributionFilesErrorKind>,
) -> (res: Vec<Effect>)
    ensures
        res@ == distribution_effects(may_distribute_files, name_accepted, description_accepted, mappings@, *files),
{
    let mut out: Vec<Effect> = Vec::new();
    if !may_distribute_files || !name_accepted || !description_accepted {
        return out;
    }
    let ghost all = mappings@;
    let mut i: usize = 0;
    assert(all.skip(0) =~= all);
    assert(results(all).skip(0) =~= results(all));
    while i < mappings.len()
        invariant
            may_distribute_files && name_accepted && description_accepted,
            all == mappings@,
            i <= all.len(),
            stored_sharings(all) == out@ + stored_sharings(all.skip(i as int)),
            first_error(results(all)) == first_error(results(all).skip(i as int)),
        decreases all.len() - i,
    {
        let m = &mappings[i as usize];
        assert(all.skip(i as int)[0] == all[i as int]);
        assert(all.skip(i as int).drop_first() =~= all.skip(i + 1));
        assert(results(all).skip(i as int)[0] == m.result);
        assert(results(all).skip(i as int).drop_first() =~= results(all).skip(i + 1));
        let ghost prev = out@;
        match m.store {
            Some(s) => {
                out.push(Effect::StoreSharing(s));
            },
            None => {},
        }
        if m.result.is_err() {
            let ghost rest = all.skip(i as int);
            assert(rest[0].result is Err);
            assert(stored_sharings(rest) == (match rest[0].store {
                Some(s) => seq![Effect::StoreSharing(s)],
                None => Seq::<Effect>::empty(),
            }));
            assert(out@ =~= prev + stored_sharings(all.skip(i as int)));
            assert(stored_sharings(all) =~= out@);
            assert(first_error(results(all).skip(i as int)) is Some);
            assert(out@ + Seq::<Effect>::empty() =~= out@);
            return out;
        }
        assert(out@ + stored_sharings(all.skip(i + 1)) =~= prev + stored_sharings(all.skip(i as int)));
        i = i + 1;
    }
    assert(all.skip(i as int) =~= Seq::<MappingDecision>::empty());
    assert(results(all).skip(i as int) =~= Seq::<UseCaseResult<(ProjectId, FileSharingId), Error>>::empty());
    assert(out@ + Seq::<Effect>::empty() =~= out@);
    if files.is_ok() {
        out.push(Effect::StoreDistribution);
    }
    out
}

/// The results of the mappings, in order.
fn take_results(mappings: Vec<MappingDecision>) -> (res: Vec<UseCaseResult<(ProjectId, FileSharingId), Error>>)
    ensures
        res@ == results(mappings@),
{
    let ghost all = mappings@;
    assert(all.len() == mappings.len());
    let mut rest = mappings;
    let mut out: Vec<UseCaseResult<(ProjectId, FileSharingId), Error>> = Vec::new();
    let mut i: usize = 0;
    assert(all.skip(0) =~= all);
    while rest.len() > 0
        invariant
            i + rest.len() == all.len(),
            all.len() <= usize::MAX,
            rest@ =~= all.skip(i as int),
            out@ =~= results(all.take(i as int)),
        decreases rest.len(),
    {
        assert(all.skip(i as int).drop_first() =~= all.skip(i + 1));
        let m = rest.remove(0);
        assert(m == all[i as int]);
        out.push(m.result);
        assert(all.take(i + 1) =~= all.take(i as int).push(all[i as int]));
        i = i + 1;
    }
    assert(all.take(i as int) =~= all);
    out
}

/// The files handed to the entity layer to make the distribution: the
/// project and the sharing of each mapping taken, in order.
pub fn distribution_files(mappings: &Vec<MappingDecision>) -> (res: Vec<(ProjectId, FileSharingId)>)
    ensures
        first_error(results(mappings@)) is None ==> res@ == crate::flow::ok_values(results(mappings@)),
{
    let mut out: Vec<(ProjectId, FileSharingId)> = Vec::new();
    let ghost all = results(mappings@);
    let mut i: usize = 0;
    while i < mappings.len()
        invariant
            all == results(mappings@),
            i <= mappings.len(),
            first_error(all) is None ==> out@ == crate::flow::ok_values(all).take(i as int),
        decreases mappings.len() - i,
    {
        match &mappings[i as usize].result {
            Ok(pair) => {
                out.push(*pair);
            },
            Err(_) => {},
        }
        proof {
            if first_error(all) is None {
                crate::flow::lemma_no_error_all_ok(all, i as int);
                assert(crate::flow::ok_values(all).take(i + 1) =~= crate::flow::ok_values(all).take(i as int).push(all[i as int]->Ok_0));
            }
        }
        i = i + 1;
    }
    assert(crate::flow::ok_values(all).take(i as int) =~= crate::flow::ok_values(all));
    out
}

/// Distributes files, given whether the user holds the permission to
/// distribute files, the name and the description with the verdicts on them,
/// what taking each mapping gave (up to the first that was not taken), the
/// verdict on the files taken (`distribution_files`), the identifier, time
/// and author of the new distribution, and whether the user may see it.
pub fn run(
    may_distribute_files: bool,
    name: String,
    name_accepted: bool,
    description: String,
    description_accepted: bool,
    mappings: Vec<MappingDecision>,
    files: Result<(), DistributionFilesErrorKind>,
    creation: Creation<FileDistributionId>,
    visible: bool,
) -> (res: UseCaseResult<FileDistribution, Error>)
    ensures
        verdict(res) == run_outcome(may_distribute_files, name_accepted, description_accepted, mappings@, files, visible),
        res matches Ok(d) ==> d.made_of(creation, name, description, taken_files(mappings@)),
        may_distribute_files && name_accepted && description_accepted
            ==> (first_error(results(mappings@)) matches Some(UseCaseError::Internal(e))
                ==> res == Err::<FileDistribution, UseCaseError<Error>>(UseCaseError::Internal(e))),
{
    if !may_distribute_files {
        return Err(UseCaseError::UseCase(Error::from_permissions_error()));
    }
    if !name_accepted {
        return Err(UseCaseError::UseCase(Error::from_name_error()));
    }
    if !description_accepted {
        return Err(UseCaseError::UseCase(Error::from_description_error()));
    }
    let taken = crate::flow::collect_results(take_results(mappings))?;
    if let Err(kind) = files {
        return Err(UseCaseError::UseCase(Error::from_files_error(kind)));
    }
    let distribution = FileDistribution {
        id: creation.id,
        created_at: creation.created_at,
        author_id: creation.author_id,
        name,
        description,
        files: taken,
    };
    crate::flow::expect_visible(Found { entity: distribution, visible })
}

/// Where every mapping was taken, the files of the distribution are, one for
/// each mapping and in its order, the project and the sharing it was given.
pub proof fn lemma_every_mapping_distributed(mappings: Seq<MappingDecision>)
    requires
        first_error(results(mappings)) is None,
    ensures
        taken_files(mappings).len() == mappings.len(),
        forall|i: int| 0 <= i < mappings.len()
            ==> mappings[i].result == Ok::<(ProjectId, FileSharingId), UseCaseError<Error>>(#[trigger] taken_files(mappings)[i]),
{
    assert forall|i: int| 0 <= i < mappings.len()
        implies mappings[i].result == Ok::<(ProjectId, FileSharingId), UseCaseError<Error>>(#[trigger] taken_files(mappings)[i]) by {
        crate::flow::lemma_no_error_all_ok(results(mappings), i);
        assert(results(mappings)[i] == mappings[i].result);
    }
}

/// A project the user may not see is answered exactly as one that does not
/// exist, whatever file it was to get.
pub proof fn lemma_hidden_project_as_absent(entity: ProjectId, file: FileLookup)
    ensures
        mapping_outcome(Some(Found { entity, visible: false }), file) == mapping_outcome(None, file),
        mapping_outcome(None, file) == Outcome::<(ProjectId, FileSharingId), Error>::Refused(Error::ProjectNotFound),
        mapping_store(Some(Found { entity, visible: false }), file) is None,
{
}

/// The first mapping that is not taken decides the refusal, whatever the
/// mappings after it would have given.
pub proof fn lemma_first_refused_mapping_decides(
    may_distribute_files: bool,
    name_accepted: bool,
    description_accepted: bool,
    mappings: Seq<MappingDecision>,
    more: Seq<MappingDecision>,
    files: Result<(), DistributionFilesErrorKind>,
    visible: bool,
)
    requires
        first_error(results(mappings)) is Some,
    ensures
        run_outcome(may_distribute_files, name_accepted, description_accepted, mappings + more, files, visible)
            == run_outcome(may_distribute_files, name_accepted, description_accepted, mappings, files, visible),
{
    assert(results(mappings + more) =~= results(mappings) + results(more));
    crate::flow::lemma_first_error_decides(results(mappings), results(more));
}

/// Where the user may not distribute files, or the name or the description
/// is refused, nothing is stored.
pub proof fn lemma_early_refusal_stores_nothing(
    may_distribute_files: bool,
    name_accepted: bool,
    description_accepted: bool,
    mappings: Seq<MappingDecision>,
    files: Result<(), DistributionFilesErrorKind>,
)
    requires
        !may_distribute_files || !name_accepted || !description_accepted,
    ensures
        distribution_effects(may_distribute_files, name_accepted, description_accepted, mappings, files).len() == 0,
{
}

/// Where the distribution is refused or fails, it is not stored.
pub proof fn lemma_distribution_stored_only_on_success(
    may_distribute_files: bool,
    name_accepted: bool,
    description_accepted: bool,
    mappings: Seq<MappingDecision>,
    files: Result<(), DistributionFilesErrorKind>,
    visible: bool,
)
    requires
        !(run_outcome(may_distribute_files, name_accepted, description_accepted, mappings, files, visible) is Done),
        visible,
    ensures
        !distribution_effects(may_distribute_files, name_accepted, description_accepted, mappings, files).contains(Effect::StoreDistribution),
{
    lemma_stored_sharings_only_sharings(mappings);
}

proof fn lemma_stored_sharings_only_sharings(mappings: Seq<MappingDecision>)
    ensures
        !stored_sharings(mappings).contains(Effect::StoreDistribution),
    decreases mappings.len(),
{
    if mappings.len() > 0 {
        lemma_stored_sharings_only_sharings(mappings.drop_first());
        let head = match mappings[0].store {
            Some(s) => seq![Effect::StoreSharing(s)],
            None => seq![],
        };
        if !(mappings[0].result is Err) {
            assert forall|k: int| 0 <= k < stored_sharings(mappings).len() implies stored_sharings(mappings)[k] != Effect::StoreDistribution by {
                if k >= head.len() {
                    assert(stored_sharings(mappings)[k] == stored_sharings(mappings.drop_first())[k - head.len()]);
                }
            }
        }
    }
}

/// Each refusal of the files taken is reported under its own name: two
/// different refusals are never reported alike, and a duplicated project is
/// reported with that project.
pub proof fn lemma_files_refusals_distinct(k1: DistributionFilesErrorKind, k2: DistributionFilesErrorKind, id: ProjectId)
    ensures
        Error::files_error_of(k1) == Error::files_error_of(k2) ==> k1 == k2,
        Error::files_error_of(DistributionFilesErrorKind::Duplicated(id)) == Error::DuplicatedProjectId(id),
{
}

} // verus!
