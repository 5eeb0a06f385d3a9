//! Comment reconciliation: compose a marker-tagged comment body and decide
//! whether to update a prior marked note or create a new one, so that
//! repeated runs converge on a single note instead of accumulating
//! duplicates.

use vstd::prelude::*;

verus! {

/// The marker wrapping a mark value: an HTML comment token, placed as the
/// first line of every note this system owns.
pub open spec fn marker_text(mark: Seq<char>) -> Seq<char> {
    "<!-- "@ + mark + " -->"@
}

/// Builds the literal marker string for a mark value.
pub fn build_marker(mark: &String) -> (marker: String)
    ensures
        marker@ == marker_text(mark@),
{
    let mut marker = String::from_str("<!-- ");
    marker.append(mark.as_str());
    marker.append(" -->");
    marker
}

/// The fixed attribution appended to every comment body this system writes.
pub open spec fn attribution_footer_text() -> Seq<char> {
    "\n---\n\nThis comment was made by the [GitLab Merge Request Commentator](https://github.com/MarkusH/gl-mr-commentator)."@
}

/// The full body of a reconciled comment: the marker line, then the supplied
/// content, then the attribution footer.
pub open spec fn comment_body_text(marker: Seq<char>, content: Seq<char>) -> Seq<char> {
    marker + "\n"@ + content + attribution_footer_text()
}

/// Builds the full comment body for a marker and freshly supplied content.
pub fn build_comment_body(marker: &String, content: &String) -> (body: String)
    ensures
        body@ == comment_body_text(marker@, content@),
{
    let mut body = marker.clone();
    body.append("\n");
    body.append(content.as_str());
    body.append(
        "\n---\n\nThis comment was made by the [GitLab Merge Request Commentator](https://github.com/MarkusH/gl-mr-commentator).",
    );
    body
}

/// Every reconciled comment body carries its marker as a prefix, so a later
/// run recognizes the note it wrote.
pub proof fn lemma_comment_body_keeps_marker(marker: Seq<char>, content: Seq<char>)
    ensures
        marker.is_prefix_of(comment_body_text(marker, content)),
{
    assert(marker =~= comment_body_text(marker, content).subrange(0, marker.len() as int));
}

/// Whether `prefix` is the start of `text`, character for character.
pub fn string_starts_with(text: &String, prefix: &String) -> (r: bool)
    ensures
        r == prefix@.is_prefix_of(text@),
{
    let text_str = text.as_str();
    let prefix_str = prefix.as_str();
    let text_len = text_str.unicode_len();
    let prefix_len = prefix_str.unicode_len();
    if prefix_len > text_len {
        return false;
    }
    let mut i: usize = 0;
    while i < prefix_len
        invariant
            i <= prefix_len,
            prefix_len <= text_len,
            text_len == text@.len(),
            prefix_len == prefix@.len(),
            text_str@ == text@,
            prefix_str@ == prefix@,
            forall|j: int| 0 <= j < i ==> text@[j] == prefix@[j],
        decreases prefix_len - i,
    {
        if text_str.get_char(i) != prefix_str.get_char(i) {
            return false;
        }
        i += 1;
    }
    assert(prefix@ =~= text@.subrange(0, prefix@.len() as int));
    true
}

/// A note on a merge request, as the platform reports it: its id, its body,
/// and the numeric id of its author. Authorship is compared on the numeric
/// id alone.
pub struct Note {
    pub id: u64,
    pub body: String,
    pub author: u64,
}

/// The mathematical content of a [`Note`].
pub ghost struct NoteView {
    pub id: u64,
    pub body: Seq<char>,
    pub author: u64,
}

impl View for Note {
    type V = NoteView;

    open spec fn view(&self) -> NoteView {
        NoteView { id: self.id, body: self.body@, author: self.author }
    }
}

/// The views of a sequence of notes.
pub open spec fn note_views(notes: Seq<Note>) -> Seq<NoteView> {
    notes.map(|i: int, n: Note| n@)
}

/// A note is ours iff its author is the current identity and its body starts
/// with exactly the marker.
pub open spec fn note_is_marked(note: NoteView, user_id: u64, marker: Seq<char>) -> bool {
    note.author == user_id && marker.is_prefix_of(note.body)
}

/// `i` is the position of the first marked note in `notes`.
pub open spec fn is_first_marked(notes: Seq<NoteView>, user_id: u64, marker: Seq<char>, i: int) -> bool {
    &&& 0 <= i < notes.len()
    &&& note_is_marked(notes[i], user_id, marker)
    &&& forall|j: int| 0 <= j < i ==> !note_is_marked(notes[j], user_id, marker)
}

/// The reconciler selects at most one note: the first marked position is
/// unique for a fixed input list.
pub proof fn lemma_first_marked_unique(
    notes: Seq<NoteView>,
    user_id: u64,
    marker: Seq<char>,
    i: int,
    j: int,
)
    requires
        is_first_marked(notes, user_id, marker, i),
        is_first_marked(notes, user_id, marker, j),
    ensures
        i == j,
{
}

/// The single write the comment reconciler issues: either edit the note with
/// the given id in place, or create a new note.
#[derive(Clone, Copy, Debug, PartialEq, Eq, Structural)]
pub enum CommentAction {
    Update { note_id: u64 },
    Create,
}

/// What the reconciler decides on a given list of notes: update the first
/// marked note in list order if one exists, otherwise create.
pub open spec fn spec_comment_action(
    notes: Seq<NoteView>,
    user_id: u64,
    marker: Seq<char>,
) -> CommentAction
    decreases notes.len(),
{
    if notes.len() == 0 {
        CommentAction::Create
    } else if note_is_marked(notes[0], user_id, marker) {
        CommentAction::Update { note_id: notes[0].id }
    } else {
        spec_comment_action(notes.drop_first(), user_id, marker)
    }
}

/// Scans the notes in the platform-returned order and returns the position of
/// the first note owned by `user_id` and starting with `marker`.
pub fn find_marked_note(notes: &Vec<Note>, user_id: u64, marker: &String) -> (r: Option<usize>)
    ensures
        match r {
            Some(i) => is_first_marked(note_views(notes@), user_id, marker@, i as int),
            None => forall|j: int|
                0 <= j < notes@.len() ==> !note_is_marked(note_views(notes@)[j], user_id, marker@),
        },
{
    let n = notes.len();
    let mut i: usize = 0;
    while i < n
        invariant
            i <= n,
            n == notes@.len(),
            forall|j: int| 0 <= j < i ==> !note_is_marked(note_views(notes@)[j], user_id, marker@),
        decreases n - i,
    {
        let note = &notes[i];
        if note.author == user_id && string_starts_with(&note.body, marker) {
            return Some(i);
        }
        i += 1;
    }
    None
}

/// If `i` is the first marked position, the decision is to update that note.
pub proof fn lemma_comment_action_of_first_marked(
    notes: Seq<NoteView>,
    user_id: u64,
    marker: Seq<char>,
    i: int,
)
    requires
        is_first_marked(notes, user_id, marker, i),
    ensures
        spec_comment_action(notes, user_id, marker) == (CommentAction::Update { note_id: notes[i].id }),
    decreases i,
{
    if i > 0 {
        assert(is_first_marked(notes.drop_first(), user_id, marker, i - 1));
        lemma_comment_action_of_first_marked(notes.drop_first(), user_id, marker, i - 1);
    }
}

/// If no note is marked, the decision is to create one.
pub proof fn lemma_comment_action_none_marked(notes: Seq<NoteView>, user_id: u64, marker: Seq<char>)
    requires
        forall|j: int| 0 <= j < notes.len() ==> !note_is_marked(notes[j], user_id, marker),
    ensures
        spec_comment_action(notes, user_id, marker) == CommentAction::Create,
    decreases notes.len(),
{
    if notes.len() > 0 {
        lemma_comment_action_none_marked(notes.drop_first(), user_id, marker);
    }
}

/// Decides the single write for the comment flow: update the first note in
/// list order that is owned by `user_id` and starts with `marker`, or create
/// a new note if there is none.
pub fn reconcile_comment(notes: &Vec<Note>, user_id: u64, marker: &String) -> (action: CommentAction)
    ensures
        action == spec_comment_action(note_views(notes@), user_id, marker@),
        action is Create <==> (forall|j: int|
            0 <= j < notes@.len() ==> !note_is_marked(note_views(notes@)[j], user_id, marker@)),
        action matches CommentAction::Update { note_id } ==> exists|i: int|
            is_first_marked(note_views(notes@), user_id, marker@, i)
                && note_id == note_views(notes@)[i].id,
{
    match find_marked_note(notes, user_id, marker) {
        Some(i) => {
            proof {
                lemma_comment_action_of_first_marked(
                    note_views(notes@),
                    user_id,
                    marker@,
                    i as int,
                );
            }
            CommentAction::Update { note_id: notes[i].id }
        },
        None => {
            proof {
                lemma_comment_action_none_marked(note_views(notes@), user_id, marker@);
            }
            CommentAction::Create
        },
    }
}

/// How the platform's note list changes when the decided write lands:
/// creating appends a note owned by the writer with a platform-fresh id;
/// updating replaces the body of the note carrying the given id.
pub open spec fn apply_comment_action(
    notes: Seq<NoteView>,
    action: CommentAction,
    body: Seq<char>,
    author: u64,
    fresh_id: u64,
) -> Seq<NoteView> {
    match action {
        CommentAction::Create => notes.push(NoteView { id: fresh_id, body, author }),
        CommentAction::Update { note_id } => notes.map(
            |i: int, n: NoteView|
                if n.id == note_id {
                    NoteView { id: n.id, body, author: n.author }
                } else {
                    n
                },
        ),
    }
}

/// Updating the selected note leaves every other note untouched: when note
/// ids are distinct, the write decided on a list whose first marked position
/// is `i` replaces the body at `i` and changes nothing else.
pub proof fn lemma_other_notes_untouched(
    notes: Seq<NoteView>,
    user_id: u64,
    marker: Seq<char>,
    body: Seq<char>,
    fresh_id: u64,
    i: int,
)
    requires
        forall|p: int, q: int|
            0 <= p < notes.len() && 0 <= q < notes.len() && p != q ==> notes[p].id != notes[q].id,
        is_first_marked(notes, user_id, marker, i),
    ensures
        ({
            let action = spec_comment_action(notes, user_id, marker);
            let after = apply_comment_action(notes, action, body, user_id, fresh_id);
            &&& action == (CommentAction::Update { note_id: notes[i].id })
            &&& after.len() == notes.len()
            &&& after[i] == (NoteView { id: notes[i].id, body, author: notes[i].author })
            &&& forall|j: int| 0 <= j < notes.len() && j != i ==> after[j] == notes[j]
        }),
{
    lemma_comment_action_of_first_marked(notes, user_id, marker, i);
}

/// Idempotence of the comment reconciler: against a request with no prior
/// marked note, the first run creates exactly one marked note, and a second
/// run with the same marker and body updates that same note in place — the
/// list never grows a second marked note.
pub proof fn lemma_comment_reconciler_idempotent(
    notes: Seq<NoteView>,
    user_id: u64,
    marker: Seq<char>,
    body: Seq<char>,
    fresh_id: u64,
)
    requires
        forall|j: int| 0 <= j < notes.len() ==> !note_is_marked(notes[j], user_id, marker),
        marker.is_prefix_of(body),
        forall|j: int| 0 <= j < notes.len() ==> notes[j].id != fresh_id,
    ensures
        ({
            let first = spec_comment_action(notes, user_id, marker);
            let once = apply_comment_action(notes, first, body, user_id, fresh_id);
            let second = spec_comment_action(once, user_id, marker);
            let twice = apply_comment_action(once, second, body, user_id, fresh_id);
            &&& first == CommentAction::Create
            &&& once.len() == notes.len() + 1
            &&& is_first_marked(once, user_id, marker, notes.len() as int)
            &&& forall|j: int|
                0 <= j < once.len() && j != notes.len() ==> !note_is_marked(once[j], user_id, marker)
            &&& second == (CommentAction::Update { note_id: fresh_id })
            &&& twice =~= once
        }),
{
    lemma_comment_action_none_marked(notes, user_id, marker);
    let first = spec_comment_action(notes, user_id, marker);
    let once = apply_comment_action(notes, first, body, user_id, fresh_id);
    let created = NoteView { id: fresh_id, body, author: user_id };
    assert(once =~= notes.push(created));
    assert(note_is_marked(created, user_id, marker));
    assert(is_first_marked(once, user_id, marker, notes.len() as int));
    lemma_comment_action_of_first_marked(once, user_id, marker, notes.len() as int);
    let second = spec_comment_action(once, user_id, marker);
    let twice = apply_comment_action(once, second, body, user_id, fresh_id);
    assert forall|j: int| 0 <= j < once.len() implies twice[j] == once[j] by {
        if j < notes.len() {
            assert(once[j] == notes[j]);
            assert(once[j].id != fresh_id);
        } else {
            assert(once[j] == created);
        }
    }
    assert(twice =~= once);
}

} // verus!
