use video_viewer::item::{ProjectPath, VideoItem};

fn path(text: &str) -> ProjectPath {
    ProjectPath { worktree_id: 7, path: text.to_string() }
}

#[test]
fn videos_are_opened_below_their_worktree() {
    let item = VideoItem::try_open(&path("clips/movie.mp4"), Some("/home/ana")).unwrap();
    let separator = std::path::MAIN_SEPARATOR;
    assert_eq!(item.abs_path, format!("/home/ana{}clips/movie.mp4", separator));
    assert_eq!(item.project_path.worktree_id, 7);
    assert_eq!(item.project_path.path, "clips/movie.mp4");
    assert_eq!(item.project_path().worktree_id, 7);
    assert_eq!(item.project_path().path, "clips/movie.mp4");
    assert!(item.entry_id().is_none());
}

#[test]
fn root_with_a_trailing_slash_gets_no_second_one() {
    let item = VideoItem::try_open(&path("movie.mp4"), Some("/home/ana/")).unwrap();
    assert_eq!(item.abs_path, "/home/ana/movie.mp4");
}

#[test]
fn absolute_path_stands_for_itself() {
    let item = VideoItem::try_open(&path("/tmp/movie.mp4"), Some("/home/ana")).unwrap();
    assert_eq!(item.abs_path, "/tmp/movie.mp4");
}

#[test]
fn empty_root_adds_nothing() {
    let item = VideoItem::try_open(&path("movie.mp4"), Some("")).unwrap();
    assert_eq!(item.abs_path, "movie.mp4");
}

#[test]
fn video_without_worktree_keeps_its_path() {
    let item = VideoItem::try_open(&path("clips/movie.mp4"), None).unwrap();
    assert_eq!(item.abs_path, "clips/movie.mp4");
}

#[test]
fn other_files_are_not_opened() {
    assert!(VideoItem::try_open(&path("notes.txt"), Some("/home/ana")).is_none());
    assert!(VideoItem::try_open(&path("notes.txt"), None).is_none());
}

#[test]
fn videos_on_a_share_are_opened_below_it() {
    let item = VideoItem::try_open(&path("clips/movie.mp4"), Some("\\\\server\\share")).unwrap();
    let separator = std::path::MAIN_SEPARATOR;
    assert_eq!(item.abs_path, format!("\\\\server\\share{}clips/movie.mp4", separator));
    let item = VideoItem::try_open(&path("movie.mp4"), Some("//server/share/")).unwrap();
    assert_eq!(item.abs_path, "//server/share/movie.mp4");
    assert!(VideoItem::try_open(&path("//server/share/notes.txt"), None).is_none());
    assert!(VideoItem::try_open(&path("//server/share/movie.mp4"), None).is_some());
}

#[test]
fn videos_below_a_verbatim_root_go_behind_it() {
    let root = "\\\\?\\C:\\home";
    let item = VideoItem::try_open(&path("clips/movie.mp4"), Some(root)).unwrap();
    assert_eq!(item.abs_path.replace('\\', "/"), "//?/C:/home/clips/movie.mp4");
}
