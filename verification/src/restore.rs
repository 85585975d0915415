//! Opening a pane again that an earlier session had written down.
//!
//! Each step asks something of the database or of the project. [`Restore`]
//! says what is asked next and what an answer means; asking is up to the
//! caller.

use vstd::prelude::*;

use crate::item::ProjectPath;

verus! {

/// Why a pane could not be opened again.
#[derive(Clone, Copy, Debug, PartialEq, Eq, Structural)]
pub enum RestoreError {
    /// The database could not be read.
    Lookup,
    /// Nothing was written down of the pane.
    NoPath,
    /// The file belongs to no worktree.
    NoWorktree,
    /// The project could not open the file.
    Open,
    /// The project opened something else than a video.
    NotAVideo,
}

impl RestoreError {
    /// What the failure is called. Where there is no name for it, the failure
    /// that the caller met speaks for itself.
    pub open spec fn context_text(self) -> Option<Seq<char>> {
        match self {
            RestoreError::Lookup => None,
            RestoreError::NoPath => Some("No video path found"@),
            RestoreError::NoWorktree => Some("Path not found"@),
            RestoreError::Open => None,
            RestoreError::NotAVideo => Some("Not a video item"@),
        }
    }

    /// What the failure is called.
    pub fn context(self) -> (context: Option<&'static str>)
        ensures
            match context {
                Some(text) => self.context_text() == Some(text@),
                None => self.context_text() is None,
            },
    {
        match self {
            RestoreError::Lookup => None,
            RestoreError::NoPath => Some("No video path found"),
            RestoreError::NoWorktree => Some("Path not found"),
            RestoreError::Open => None,
            RestoreError::NotAVideo => Some("Not a video item"),
        }
    }
}

/// What is to be done next. `saved` is where the video was left, in
/// nanoseconds from its start.
pub enum Restore {
    /// Look up which file the pane showed.
    ReadPath,
    /// Look up where the video was left.
    ReadPosition { path: String },
    /// Find the worktree of the file.
    FindWorktree { path: String, saved: Option<u128> },
    /// Open the file in its project.
    OpenPath { project_path: ProjectPath, saved: Option<u128> },
    /// See whether what was opened is a video.
    CheckItem { saved: Option<u128> },
    /// Open a pane on the video.
    OpenPane { saved: Option<u128> },
}

/// The answer to what was asked.
pub enum Answer {
    /// Which file the pane showed, if that was written down.
    Path(Result<Option<String>, ()>),
    /// Where the video was left, if that was written down.
    Position(Result<Option<u128>, ()>),
    /// Where the file stands in the project, if anywhere.
    Worktree(Option<ProjectPath>),
    /// Whether the file was opened.
    Opened(bool),
    /// Whether it is a video.
    IsVideo(bool),
}

/// Where the video was left, as far as it can be known: a position that cannot
/// be read counts as none.
pub open spec fn known_position(read: Result<Option<u128>, ()>) -> Option<u128> {
    match read {
        Ok(position) => position,
        Err(_) => None,
    }
}

/// Where the video was left, as far as it can be known.
pub fn saved_position(read: Result<Option<u128>, ()>) -> (position: Option<u128>)
    ensures
        position == known_position(read),
{
    match read {
        Ok(position) => position,
        Err(_) => None,
    }
}

impl Restore {
    /// The answer is one to what was asked.
    pub open spec fn is_answered_by(self, answer: Answer) -> bool {
        match self {
            Restore::ReadPath => answer is Path,
            Restore::ReadPosition { .. } => answer is Position,
            Restore::FindWorktree { .. } => answer is Worktree,
            Restore::OpenPath { .. } => answer is Opened,
            Restore::CheckItem { .. } => answer is IsVideo,
            Restore::OpenPane { .. } => false,
        }
    }

    /// What comes after an answer.
    pub open spec fn after(self, answer: Answer) -> Result<Restore, RestoreError> {
        match (self, answer) {
            (Restore::ReadPath, Answer::Path(Ok(Some(path)))) => Ok(Restore::ReadPosition { path }),
            (Restore::ReadPath, Answer::Path(Ok(None))) => Err(RestoreError::NoPath),
            (Restore::ReadPath, _) => Err(RestoreError::Lookup),
            (Restore::ReadPosition { path }, Answer::Position(read)) => Ok(
                Restore::FindWorktree { path, saved: known_position(read) },
            ),
            (
                Restore::FindWorktree { path, saved },
                Answer::Worktree(Some(project_path)),
            ) => Ok(Restore::OpenPath { project_path, saved }),
            (Restore::FindWorktree { .. }, _) => Err(RestoreError::NoWorktree),
            (Restore::OpenPath { project_path, saved }, Answer::Opened(true)) => Ok(
                Restore::CheckItem { saved },
            ),
            (Restore::OpenPath { .. }, _) => Err(RestoreError::Open),
            (Restore::CheckItem { saved }, Answer::IsVideo(true)) => Ok(
                Restore::OpenPane { saved },
            ),
            (Restore::CheckItem { .. }, _) => Err(RestoreError::NotAVideo),
            (other, _) => Ok(other),
        }
    }

    /// Goes on with the answer to what was asked.
    pub fn advance(self, answer: Answer) -> (next: Result<Restore, RestoreError>)
        requires
            self.is_answered_by(answer),
        ensures
            next == self.after(answer),
    {
        match (self, answer) {
            (Restore::ReadPath, Answer::Path(Ok(Some(path)))) => Ok(Restore::ReadPosition { path }),
            (Restore::ReadPath, Answer::Path(Ok(None))) => Err(RestoreError::NoPath),
            (Restore::ReadPath, _) => Err(RestoreError::Lookup),
            (Restore::ReadPosition { path }, Answer::Position(read)) => Ok(
                Restore::FindWorktree { path, saved: saved_position(read) },
            ),
            (
                Restore::FindWorktree { saved, .. },
                Answer::Worktree(Some(project_path)),
            ) => Ok(Restore::OpenPath { project_path, saved }),
            (Restore::FindWorktree { .. }, _) => Err(RestoreError::NoWorktree),
            (Restore::OpenPath { saved, .. }, Answer::Opened(true)) => Ok(
                Restore::CheckItem { saved },
            ),
            (Restore::OpenPath { .. }, _) => Err(RestoreError::Open),
            (Restore::CheckItem { saved }, Answer::IsVideo(true)) => Ok(
                Restore::OpenPane { saved },
            ),
            (Restore::CheckItem { .. }, _) => Err(RestoreError::NotAVideo),
            (other, _) => Ok(other),
        }
    }
}

/// Goes on with an answer, unless something failed before.
pub open spec fn and_after(
    so_far: Result<Restore, RestoreError>,
    answer: Answer,
) -> Result<Restore, RestoreError> {
    match so_far {
        Ok(step) => step.after(answer),
        Err(e) => Err(e),
    }
}

/// How it ends when a pane is opened again, given all the answers.
pub open spec fn restored(
    path: Result<Option<String>, ()>,
    position: Result<Option<u128>, ()>,
    worktree: Option<ProjectPath>,
    opened: bool,
    is_video: bool,
) -> Result<Restore, RestoreError> {
    let at_path = Restore::ReadPath.after(Answer::Path(path));
    let at_position = and_after(at_path, Answer::Position(position));
    let at_worktree = and_after(at_position, Answer::Worktree(worktree));
    let at_open = and_after(at_worktree, Answer::Opened(opened));
    and_after(at_open, Answer::IsVideo(is_video))
}

/// A pane opens again exactly if its path was written down, has a worktree,
/// opens and is a video, and it then carries the position that was written
/// down. That the position cannot be read is no reason not to open it.
pub proof fn pane_opens_again(
    path: Result<Option<String>, ()>,
    position: Result<Option<u128>, ()>,
    worktree: Option<ProjectPath>,
    opened: bool,
    is_video: bool,
)
    ensures
        restored(path, position, worktree, opened, is_video) is Ok <==> {
            &&& path matches Ok(Some(_))
            &&& worktree is Some
            &&& opened
            &&& is_video
        },
        restored(path, position, worktree, opened, is_video) matches Ok(step) ==> step == (
        Restore::OpenPane { saved: known_position(position) }),
{
}

/// A pane that does not open again reports the first thing that stood in the
/// way.
pub proof fn restore_reports_the_first_obstacle(
    path: Result<Option<String>, ()>,
    position: Result<Option<u128>, ()>,
    worktree: Option<ProjectPath>,
    opened: bool,
    is_video: bool,
)
    ensures
        restored(path, position, worktree, opened, is_video) matches Err(e) ==> e == if path
            is Err {
            RestoreError::Lookup
        } else if path->Ok_0 is None {
            RestoreError::NoPath
        } else if worktree is None {
            RestoreError::NoWorktree
        } else if !opened {
            RestoreError::Open
        } else {
            RestoreError::NotAVideo
        },
{
}

/// A position that can be read is known as it was read; one that cannot is
/// not known.
pub proof fn readable_positions_are_known(position: u128)
    ensures
        known_position(Ok(Some(position))) == Some(position),
        known_position(Ok(None)) == None::<u128>,
        known_position(Err(())) == None::<u128>,
{
}

/// On its way a pane asks for the worktree of the very file that was written
/// down, opens it at the very place that was found, and carries the very
/// position that was read, step by step.
pub proof fn restore_carries_what_it_is_told(
    path: String,
    position: u128,
    place: ProjectPath,
    saved: Option<u128>,
)
    ensures
        Restore::ReadPath.after(Answer::Path(Ok(Some(path)))) == Ok::<Restore, RestoreError>(
            Restore::ReadPosition { path },
        ),
        (Restore::ReadPosition { path }).after(Answer::Position(Ok(Some(position)))) == Ok::<
            Restore,
            RestoreError,
        >(Restore::FindWorktree { path, saved: Some(position) }),
        (Restore::ReadPosition { path }).after(Answer::Position(Ok(None))) == Ok::<
            Restore,
            RestoreError,
        >(Restore::FindWorktree { path, saved: None }),
        (Restore::ReadPosition { path }).after(Answer::Position(Err(()))) == Ok::<
            Restore,
            RestoreError,
        >(Restore::FindWorktree { path, saved: None }),
        (Restore::FindWorktree { path, saved }).after(Answer::Worktree(Some(place))) == Ok::<
            Restore,
            RestoreError,
        >(Restore::OpenPath { project_path: place, saved }),
        (Restore::OpenPath { project_path: place, saved }).after(Answer::Opened(true)) == Ok::<
            Restore,
            RestoreError,
        >(Restore::CheckItem { saved }),
        (Restore::CheckItem { saved }).after(Answer::IsVideo(true)) == Ok::<Restore, RestoreError>(
            Restore::OpenPane { saved },
        ),
{
}

/// An answer that is missing, or is no, ends the way with the error of its
/// step.
pub proof fn restore_stops_at_a_no(path: String, place: ProjectPath, saved: Option<u128>)
    ensures
        Restore::ReadPath.after(Answer::Path(Err(()))) == Err::<Restore, RestoreError>(
            RestoreError::Lookup,
        ),
        Restore::ReadPath.after(Answer::Path(Ok(None))) == Err::<Restore, RestoreError>(
            RestoreError::NoPath,
        ),
        (Restore::FindWorktree { path, saved }).after(Answer::Worktree(None)) == Err::<
            Restore,
            RestoreError,
        >(RestoreError::NoWorktree),
        (Restore::OpenPath { project_path: place, saved }).after(Answer::Opened(false)) == Err::<
            Restore,
            RestoreError,
        >(RestoreError::Open),
        (Restore::CheckItem { saved }).after(Answer::IsVideo(false)) == Err::<
            Restore,
            RestoreError,
        >(RestoreError::NotAVideo),
{
}

} // verus!
