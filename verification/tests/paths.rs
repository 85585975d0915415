use video_viewer::paths::{
    file_uri, is_video_extension, is_video_extension_in_any_case, is_video_path,
    pipeline_description, tab_title,
};

#[test]
fn every_video_extension_is_recognised() {
    let extensions = [
        "mp4", "m4v", "mov", "qt", "webm", "mkv", "avi", "wmv", "flv", "ogv", "ogg", "ts", "mts",
        "m2ts", "3gp", "3g2",
    ];
    for ext in extensions {
        assert!(is_video_extension(&ext.to_string()));
        assert!(is_video_path(&format!("clips/movie.{}", ext)));
    }
}

#[test]
fn other_extensions_are_not_videos() {
    for path in ["movie.mp3", "movie.png", "movie.mp", "movie.mp44", "movie.", "notes.txt"] {
        assert!(!is_video_path(path), "{}", path);
    }
    assert!(!is_video_extension(&String::new()));
    assert!(!is_video_extension(&"MP4".to_string()));
}

#[test]
fn only_the_last_extension_counts() {
    assert!(is_video_path("backup.tar.mkv"));
    assert!(!is_video_path("movie.mkv.zip"));
}

#[test]
fn case_of_the_extension_does_not_matter() {
    assert!(is_video_path("MOVIE.MP4"));
    assert!(is_video_path("movie.WebM"));
    // The Kelvin sign has the letter k for its lower case.
    assert!(is_video_path("movie.m\u{212A}v"));
}

#[test]
fn paths_without_extension_are_not_videos() {
    for path in ["", "/", ".", "..", "mp4", ".mp4", "clips/.mp4", "clips.mp4/..", "clips.mp4/x"] {
        assert!(!is_video_path(path), "{}", path);
    }
}

#[test]
fn trailing_slashes_and_dots_do_not_count() {
    assert!(is_video_path("clips/movie.mp4/"));
    assert!(is_video_path("clips/movie.mp4//"));
    assert!(is_video_path("clips/movie.mp4/."));
    assert!(is_video_path("..mp4"));
}

#[test]
fn title_is_the_file_name() {
    assert_eq!(tab_title("/home/ana/clips/movie.mp4"), "movie.mp4");
    assert_eq!(tab_title("movie.mp4"), "movie.mp4");
    assert_eq!(tab_title("clips/"), "clips");
}

#[test]
fn title_of_a_path_without_name_is_video() {
    assert_eq!(tab_title("/"), "video");
    assert_eq!(tab_title(""), "video");
    assert_eq!(tab_title("clips/.."), "video");
    assert_eq!(tab_title("."), "video");
}

#[test]
fn uri_of_an_absolute_path() {
    assert_eq!(file_uri("/home/ana/movie.mp4"), "file:///home/ana/movie.mp4");
    assert_eq!(file_uri("/odd\\name.mp4"), "file:///odd\\name.mp4");
}

#[test]
fn uri_of_a_path_with_a_drive_letter() {
    assert_eq!(file_uri("C:\\videos\\movie.mp4"), "file:///C:/videos/movie.mp4");
    assert_eq!(file_uri("movie.mp4"), "file:///movie.mp4");
    assert_eq!(file_uri(""), "file:///");
}

#[test]
fn pipeline_of_a_file() {
    assert_eq!(
        pipeline_description("/clips/movie.mp4"),
        "playbin uri=\"file:///clips/movie.mp4\" video-sink=\"videoconvert ! \
         video/x-raw,format=BGRA ! appsink name=vsink drop=true max-buffers=3 \
         enable-last-sample=false\""
    );
}

#[test]
fn files_on_a_share_are_read_like_others() {
    assert!(is_video_path("//server/share/clips/movie.mp4"));
    assert!(is_video_path("//server/share/movie.mp4"));
    assert!(!is_video_path("//server/share/notes.txt"));
    assert_eq!(tab_title("//server/share/clips/movie.mp4"), "movie.mp4");
    assert!(is_video_path("\\\\server\\share\\movie.mp4"));
    assert!(is_video_path("\\\\?\\C:\\clips\\movie.mp4"));
}

#[test]
fn answer_depends_on_the_extension_alone() {
    for (p, q) in [("a.mp4", "some/where/else.Mp4"), ("a.b.TXT", "z.txt")] {
        assert_eq!(is_video_path(p), is_video_path(q));
    }
    assert!(is_video_path("a.M\u{212A}V"));
}

#[test]
fn extensions_count_in_any_case() {
    for ext in ["mkv", "MKV", "mKv", "M\u{212A}v"] {
        assert!(is_video_extension_in_any_case(Some(ext)));
    }
    assert!(!is_video_extension_in_any_case(Some("txt")));
    assert!(!is_video_extension_in_any_case(Some("")));
    assert!(!is_video_extension_in_any_case(None));
}
