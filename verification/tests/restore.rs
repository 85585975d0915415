use video_viewer::item::{ProjectPath, VideoItem};
use video_viewer::playback::{BusEvent, Command};
use video_viewer::restore::{saved_position, Answer, Restore, RestoreError};
use video_viewer::view::VideoView;

fn step(restore: Restore, answer: Answer) -> Result<Restore, RestoreError> {
    restore.advance(answer)
}

fn at_worktree(position: Result<Option<u128>, ()>) -> Restore {
    let path = Answer::Path(Ok(Some("/clips/movie.mp4".to_string())));
    let restore = step(Restore::ReadPath, path).ok().unwrap();
    assert!(matches!(&restore, Restore::ReadPosition { path } if path == "/clips/movie.mp4"));
    step(restore, Answer::Position(position)).ok().unwrap()
}

fn at_open() -> Restore {
    let place = ProjectPath { worktree_id: 3, path: "movie.mp4".to_string() };
    let worktree = Answer::Worktree(Some(place));
    step(at_worktree(Ok(Some(5))), worktree).ok().unwrap()
}

#[test]
fn pane_opens_where_it_was_left() {
    let restore = at_open();
    assert!(matches!(
        &restore,
        Restore::OpenPath { project_path, saved: Some(5) }
            if project_path.worktree_id == 3 && project_path.path == "movie.mp4"
    ));
    let restore = step(restore, Answer::Opened(true)).ok().unwrap();
    let restore = step(restore, Answer::IsVideo(true)).ok().unwrap();
    let saved = match restore {
        Restore::OpenPane { saved } => saved,
        _ => panic!("no pane is opened"),
    };
    assert_eq!(saved, Some(5));
    let item = VideoItem {
        project_path: ProjectPath { worktree_id: 3, path: "movie.mp4".to_string() },
        abs_path: "/clips/movie.mp4".to_string(),
    };
    let mut view = VideoView::new(&item, saved, 0);
    view.finish_start(Ok(()));
    assert_eq!(view.handle_event(BusEvent::AsyncDone), Some(Command::Seek { position: 5 }));
    assert_eq!(view.path(), "/clips/movie.mp4");
}

#[test]
fn unreadable_position_counts_as_none() {
    for (read, saved) in [(Ok(None), None), (Err(()), None), (Ok(Some(9)), Some(9))] {
        assert_eq!(saved_position(read), saved);
        match at_worktree(read) {
            Restore::FindWorktree { path, saved: found } => {
                assert_eq!(path, "/clips/movie.mp4");
                assert_eq!(found, saved);
            }
            _ => panic!("not at the worktree"),
        }
    }
}

#[test]
fn each_obstacle_is_reported() {
    let error = |result: Result<Restore, RestoreError>| result.err().unwrap();
    let lookup = error(step(Restore::ReadPath, Answer::Path(Err(()))));
    assert_eq!((lookup, lookup.context()), (RestoreError::Lookup, None));
    let no_path = error(step(Restore::ReadPath, Answer::Path(Ok(None))));
    assert_eq!((no_path, no_path.context()), (RestoreError::NoPath, Some("No video path found")));
    let lost = error(step(at_worktree(Ok(None)), Answer::Worktree(None)));
    assert_eq!((lost, lost.context()), (RestoreError::NoWorktree, Some("Path not found")));
    let unopened = error(step(at_open(), Answer::Opened(false)));
    assert_eq!((unopened, unopened.context()), (RestoreError::Open, None));
    let restore = step(at_open(), Answer::Opened(true)).ok().unwrap();
    let other = error(step(restore, Answer::IsVideo(false)));
    assert_eq!((other, other.context()), (RestoreError::NotAVideo, Some("Not a video item")));
}
