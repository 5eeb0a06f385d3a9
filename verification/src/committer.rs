//! Commit and merge-request reconciliation: plan the writes that make a
//! branch exist, push one file update to it, and keep exactly one open merge
//! request for it.

use vstd::prelude::*;

verus! {

/// The fixed base reference that new branches are cut from and merge
/// requests target.
pub open spec fn base_ref_text() -> Seq<char> {
    "main"@
}

/// A request to fetch a branch of a project by name.
pub struct FetchBranchRequest {
    pub project_id: u64,
    pub branch: String,
}

/// A request to create a branch of a project from a base reference.
pub struct CreateBranchRequest {
    pub project_id: u64,
    pub branch: String,
    pub ref_name: String,
}

/// The remaining calls after the initial branch fetch: nothing when the
/// fetch found the branch, otherwise exactly one create followed by exactly
/// one re-fetch.
pub enum BranchPlan {
    UseExisting,
    CreateThenRefetch { create: CreateBranchRequest, refetch: FetchBranchRequest },
}

/// Decides what follows the initial branch fetch. Any fetch failure is
/// treated as "the branch does not exist", so `fetch_found` is simply
/// whether the fetch succeeded; on a miss the branch is created from the
/// fixed base reference and fetched again.
pub fn ensure_branch_exists_plan(project_id: u64, branch: &String, fetch_found: bool) -> (plan:
    BranchPlan)
    ensures
        fetch_found <==> plan is UseExisting,
        plan matches BranchPlan::CreateThenRefetch { create, refetch } ==> {
            &&& create.project_id == project_id
            &&& create.branch@ == branch@
            &&& create.ref_name@ == base_ref_text()
            &&& refetch.project_id == project_id
            &&& refetch.branch@ == branch@
        },
{
    if fetch_found {
        BranchPlan::UseExisting
    } else {
        BranchPlan::CreateThenRefetch {
            create: CreateBranchRequest {
                project_id,
                branch: branch.clone(),
                ref_name: String::from_str("main"),
            },
            refetch: FetchBranchRequest { project_id, branch: branch.clone() },
        }
    }
}

/// The kinds of file action a commit can carry.
#[derive(Clone, Copy, Debug, PartialEq, Eq, Structural)]
pub enum CommitActionKind {
    Create,
    Delete,
    Move,
    Update,
    Chmod,
}

/// One file action inside a commit: a kind, a file path, and the raw bytes
/// to store.
pub struct CommitAction {
    pub kind: CommitActionKind,
    pub file_path: String,
    pub content: Vec<u8>,
}

/// A request to create one commit on a branch of a project.
pub struct CommitRequest {
    pub project_id: u64,
    pub branch: String,
    pub actions: Vec<CommitAction>,
    pub commit_message: String,
}

/// The fixed message every commit this system pushes carries.
pub open spec fn commit_message_text() -> Seq<char> {
    "chore: Update files"@
}

/// Builds the single commit that overwrites one file on a branch: exactly
/// one action, of kind update, carrying the full provided content, under the
/// fixed commit message.
pub fn update_file_request(
    project_id: u64,
    branch: &String,
    file_path: &String,
    content: Vec<u8>,
) -> (r: CommitRequest)
    ensures
        r.project_id == project_id,
        r.branch@ == branch@,
        r.actions@.len() == 1,
        r.actions@[0].kind == CommitActionKind::Update,
        r.actions@[0].file_path@ == file_path@,
        r.actions@[0].content@ == content@,
        r.commit_message@ == commit_message_text(),
{
    let action = CommitAction {
        kind: CommitActionKind::Update,
        file_path: file_path.clone(),
        content,
    };
    let mut actions: Vec<CommitAction> = Vec::new();
    actions.push(action);
    CommitRequest {
        project_id,
        branch: branch.clone(),
        actions,
        commit_message: String::from_str("chore: Update files"),
    }
}

/// An open merge request, as the platform reports it: its id and its title.
pub struct MergeRequest {
    pub id: u64,
    pub title: String,
}

/// The mathematical content of a [`MergeRequest`].
pub ghost struct MergeRequestView {
    pub id: u64,
    pub title: Seq<char>,
}

impl View for MergeRequest {
    type V = MergeRequestView;

    open spec fn view(&self) -> MergeRequestView {
        MergeRequestView { id: self.id, title: self.title@ }
    }
}

/// The views of a sequence of merge requests.
pub open spec fn merge_request_views(requests: Seq<MergeRequest>) -> Seq<MergeRequestView> {
    requests.map(|i: int, r: MergeRequest| r@)
}

/// A merge request is recognized as ours iff its title equals the target
/// title exactly, character for character.
pub open spec fn title_matches(request: MergeRequestView, title: Seq<char>) -> bool {
    request.title == title
}

/// `i` is the position of the first exact title match in `requests`.
pub open spec fn is_first_titled(
    requests: Seq<MergeRequestView>,
    title: Seq<char>,
    i: int,
) -> bool {
    &&& 0 <= i < requests.len()
    &&& title_matches(requests[i], title)
    &&& forall|j: int| 0 <= j < i ==> !title_matches(requests[j], title)
}

/// The fixed description every merge request this system opens carries.
pub open spec fn merge_request_description_text() -> Seq<char> {
    "\n---\n\nThis merge request was opened by the [GitLab Merge Request Commentator](https://github.com/MarkusH/gl-mr-commentator)."@
}

/// A request to open a merge request from a source branch into the fixed
/// base branch, asking the platform to delete the source branch and squash
/// when it is merged.
pub struct CreateMergeRequestRequest {
    pub project_id: u64,
    pub source_branch: String,
    pub target_branch: String,
    pub title: String,
    pub description: String,
    pub remove_source_branch: bool,
    pub squash: bool,
}

/// The single write the merge-request reconciler issues, if any: reuse an
/// existing open request untouched, or open exactly one new request.
pub enum MergeRequestAction {
    UseExisting(MergeRequest),
    Create(CreateMergeRequestRequest),
}

/// Decides the merge-request write: scan all open requests from the branch
/// in list order, reuse the first whose title equals `title` exactly, and
/// only when none matches open a new request from `branch` into the base
/// reference with the given title.
pub fn ensure_merge_request_is_open_plan(
    open_requests: &Vec<MergeRequest>,
    project_id: u64,
    branch: &String,
    title: &String,
) -> (action: MergeRequestAction)
    ensures
        action is Create <==> (forall|j: int|
            0 <= j < open_requests@.len()
                ==> !title_matches(merge_request_views(open_requests@)[j], title@)),
        action matches MergeRequestAction::UseExisting(request) ==> exists|i: int|
            is_first_titled(merge_request_views(open_requests@), title@, i)
                && request@ == merge_request_views(open_requests@)[i],
        action matches MergeRequestAction::Create(request) ==> {
            &&& request.project_id == project_id
            &&& request.source_branch@ == branch@
            &&& request.target_branch@ == base_ref_text()
            &&& request.title@ == title@
            &&& request.description@ == merge_request_description_text()
            &&& request.remove_source_branch
            &&& request.squash
        },
{
    let n = open_requests.len();
    let mut i: usize = 0;
    while i < n
        invariant
            i <= n,
            n == open_requests@.len(),
            forall|j: int|
                0 <= j < i ==> !title_matches(merge_request_views(open_requests@)[j], title@),
        decreases n - i,
    {
        let request = &open_requests[i];
        if request.title.eq(title) {
            let found = MergeRequest { id: request.id, title: request.title.clone() };
            proof {
                assert(merge_request_views(open_requests@)[i as int] == open_requests@[i as int]@);
                assert(is_first_titled(merge_request_views(open_requests@), title@, i as int));
                assert(found@ == merge_request_views(open_requests@)[i as int]);
            }
            return MergeRequestAction::UseExisting(found);
        }
        i += 1;
    }
    MergeRequestAction::Create(
        CreateMergeRequestRequest {
            project_id,
            source_branch: branch.clone(),
            target_branch: String::from_str("main"),
            title: title.clone(),
            description: String::from_str(
                "\n---\n\nThis merge request was opened by the [GitLab Merge Request Commentator](https://github.com/MarkusH/gl-mr-commentator).",
            ),
            remove_source_branch: true,
            squash: true,
        },
    )
}

} // verus!
