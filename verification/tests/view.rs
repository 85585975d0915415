use video_viewer::item::{ProjectPath, VideoItem};
use video_viewer::playback::{BusEvent, Command, PipelineState, Speed};
use video_viewer::start::StartError;
use video_viewer::view::{Content, VideoView, LAST_TIME};

const SECOND: u64 = 1_000_000_000;

fn item(path: &str) -> VideoItem {
    VideoItem {
        project_path: ProjectPath { worktree_id: 1, path: path.to_string() },
        abs_path: path.to_string(),
    }
}

/// A pane whose pipeline has started and is ready.
fn ready() -> VideoView {
    let mut view = VideoView::new(&item("/clips/movie.mp4"), None, 0);
    view.finish_start(Ok(()));
    view.handle_event(BusEvent::AsyncDone);
    view
}

fn at(position: u64, duration: u64) -> VideoView {
    let mut view = ready();
    view.tick(Some(position), Some(duration), 0);
    view
}

#[test]
fn opened_pane_loads() {
    let view = VideoView::new(&item("/clips/movie.mp4"), Some(7), 0);
    assert!(matches!(view.render_content(), Content::Loading { text: "Loading video..." }));
    assert!(view.render_controls().is_none());
    assert_eq!(view.path(), "/clips/movie.mp4");
    assert_eq!(view.saved_position(), Some(7));
    assert!(view.needs_animation_frame(false));
}

#[test]
fn ready_pane_shows_the_video_muted() {
    let view = ready();
    assert!(matches!(view.render_content(), Content::Video));
    let controls = view.render_controls().unwrap();
    assert_eq!(controls.play_icon, "⏸");
    assert_eq!(controls.mute_icon, "🔇");
    assert_eq!(controls.time_text, "0:00 / 0:00");
    assert_eq!((controls.bar_filled, controls.bar_length), (0, SECOND));
}

#[test]
fn started_pane_loads_until_the_pipeline_is_ready() {
    let mut view = VideoView::new(&item("movie.mp4"), None, 0);
    view.finish_start(Ok(()));
    assert!(matches!(view.render_content(), Content::Loading { .. }));
    view.handle_event(BusEvent::Other);
    assert!(matches!(view.render_content(), Content::Loading { .. }));
    view.handle_event(BusEvent::AsyncDone);
    assert!(matches!(view.render_content(), Content::Video));
}

fn opened_at(saved: u128) -> VideoView {
    VideoView::new(&item("movie.mp4"), Some(saved), 0)
}

#[test]
fn playback_goes_on_where_it_was_left_once() {
    let mut view = opened_at(7);
    view.finish_start(Ok(()));
    assert_eq!(view.handle_event(BusEvent::Other), None);
    view.toggle_play_pause(1);
    assert_eq!(view.saved_position(), Some(7));
    assert_eq!(view.handle_event(BusEvent::AsyncDone), Some(Command::Seek { position: 7 }));
    assert_eq!(view.saved_position(), None);
    assert_eq!(view.handle_event(BusEvent::AsyncDone), None);
    view.retry();
    view.finish_start(Ok(()));
    assert_eq!(view.handle_event(BusEvent::AsyncDone), None);
}

#[test]
fn saved_position_outlives_a_failed_start() {
    let mut view = opened_at(7);
    view.finish_start(Err(StartError::Play));
    assert_eq!(view.handle_event(BusEvent::AsyncDone), None);
    view.retry();
    view.finish_start(Ok(()));
    assert_eq!(view.handle_event(BusEvent::Error("x".to_string())), None);
    assert_eq!(view.handle_event(BusEvent::AsyncDone), None);
    view.retry();
    view.finish_start(Ok(()));
    assert_eq!(view.handle_event(BusEvent::AsyncDone), Some(Command::Seek { position: 7 }));
}

#[test]
fn saved_position_must_be_a_time_of_the_pipeline() {
    let mut view = opened_at(LAST_TIME as u128);
    view.finish_start(Ok(()));
    let last = Some(Command::Seek { position: LAST_TIME });
    assert_eq!(view.handle_event(BusEvent::AsyncDone), last);
    let mut view = opened_at(LAST_TIME as u128 + 1);
    view.finish_start(Ok(()));
    assert_eq!(view.handle_event(BusEvent::AsyncDone), None);
    assert_eq!(view.saved_position(), None);
}

#[test]
fn pane_without_saved_position_starts_at_the_beginning() {
    let mut view = VideoView::new(&item("movie.mp4"), None, 0);
    view.finish_start(Ok(()));
    assert_eq!(view.handle_event(BusEvent::AsyncDone), None);
}

#[test]
fn failed_start_is_shown_and_can_be_retried() {
    let mut view = VideoView::new(&item("movie.mp4"), None, 0);
    view.finish_start(Err(StartError::NoBus));
    match view.render_content() {
        Content::Failed { message, button } => {
            assert_eq!(message, "Failed to start video: No bus");
            assert_eq!(button, "Retry");
        }
        _ => panic!("no error is shown"),
    }
    assert!(view.render_controls().is_none());
    assert_eq!(view.toggle_play_pause(1), None);
    view.retry();
    assert!(matches!(view.render_content(), Content::Loading { .. }));
    view.finish_start(Ok(()));
    view.handle_event(BusEvent::AsyncDone);
    assert!(matches!(view.render_content(), Content::Video));
}

#[test]
fn playback_error_is_shown() {
    let mut view = ready();
    view.handle_event(BusEvent::Error("no decoder".to_string()));
    match view.render_content() {
        Content::Failed { message, .. } => assert_eq!(message, "Playback error: no decoder"),
        _ => panic!("no error is shown"),
    }
    assert!(view.render_controls().is_none());
    view.retry();
    assert_eq!(view.seek_forward(1), None);
}

#[test]
fn video_starts_over_at_its_end() {
    assert_eq!(
        BusEvent::EndOfStream.answer(),
        [Command::Seek { position: 0 }, Command::SetState(PipelineState::Playing)]
    );
    assert!(BusEvent::AsyncDone.answer().is_empty());
    assert!(BusEvent::Error("x".to_string()).answer().is_empty());
    assert!(BusEvent::Other.answer().is_empty());
    assert!(BusEvent::AsyncDone.concerns_pane());
    assert!(BusEvent::Error("x".to_string()).concerns_pane());
    assert!(!BusEvent::Other.concerns_pane());
    assert!(!BusEvent::EndOfStream.concerns_pane());
    let mut view = ready();
    view.handle_event(BusEvent::EndOfStream);
    assert!(matches!(view.render_content(), Content::Video));
}

#[test]
fn play_pause_alternates() {
    let mut view = ready();
    assert_eq!(view.toggle_play_pause(1), Some(Command::SetState(PipelineState::Paused)));
    assert_eq!(view.render_controls().unwrap().play_icon, "▶");
    assert!(!view.needs_animation_frame(false));
    assert!(view.needs_animation_frame(true));
    assert_eq!(view.mouse_pressed(2), Some(Command::SetState(PipelineState::Playing)));
    assert_eq!(view.render_controls().unwrap().play_icon, "⏸");
}

#[test]
fn jump_forward_stops_at_the_end() {
    let mut view = at(10 * SECOND, 60 * SECOND);
    assert_eq!(view.seek_forward(1), Some(Command::Seek { position: 15 * SECOND }));
    let mut view = at(58 * SECOND, 60 * SECOND);
    assert_eq!(view.seek_forward(1), Some(Command::Seek { position: 60 * SECOND }));
    let mut view = at(LAST_TIME, LAST_TIME);
    assert_eq!(view.seek_forward(1), Some(Command::Seek { position: LAST_TIME }));
    let mut view = ready();
    assert_eq!(view.seek_forward(1), Some(Command::Seek { position: 0 }));
}

#[test]
fn jump_backward_stops_at_the_start() {
    let mut view = at(10 * SECOND, 60 * SECOND);
    assert_eq!(view.seek_backward(1), Some(Command::Seek { position: 5 * SECOND }));
    let mut view = at(3 * SECOND, 60 * SECOND);
    assert_eq!(view.seek_backward(1), Some(Command::Seek { position: 0 }));
}

#[test]
fn jumps_cancel_out() {
    let mut view = at(20 * SECOND, 60 * SECOND);
    assert_eq!(view.seek_forward(1), Some(Command::Seek { position: 25 * SECOND }));
    view.tick(Some(25 * SECOND), None, 1);
    assert_eq!(view.seek_backward(1), Some(Command::Seek { position: 20 * SECOND }));
}

#[test]
fn mute_remembers_the_volume() {
    let mut view = ready();
    assert_eq!(view.toggle_mute(1), Some(Command::SetVolume { percent: 100 }));
    assert_eq!(view.render_controls().unwrap().mute_icon, "🔊");
    assert_eq!(view.toggle_mute(2), Some(Command::SetVolume { percent: 0 }));
    assert_eq!(view.render_controls().unwrap().mute_icon, "🔇");
    assert_eq!(view.toggle_mute(3), Some(Command::SetVolume { percent: 100 }));
}

#[test]
fn speed_buttons_mark_the_current_speed() {
    let labels = |view: &VideoView| {
        let controls = view.render_controls().unwrap();
        controls.speeds.iter().map(|b| (b.label, b.active)).collect::<Vec<_>>()
    };
    let mut view = ready();
    assert_eq!(labels(&view), [("0.5×", false), ("1×", true), ("1.5×", false), ("2×", false)]);
    let command = view.choose_speed(Speed::Double, Some(9), 1);
    assert_eq!(command, Some(Command::SeekAtSpeed { speed: Speed::Double, position: 9 }));
    assert_eq!(labels(&view), [("0.5×", false), ("1×", false), ("1.5×", false), ("2×", true)]);
    assert_eq!(view.choose_speed(Speed::Half, None, 1), None);
    assert_eq!(labels(&view), [("0.5×", true), ("1×", false), ("1.5×", false), ("2×", false)]);
}

#[test]
fn speeds_in_percent() {
    let percents = [Speed::Half, Speed::Normal, Speed::OneAndAHalf, Speed::Double]
        .map(|speed| speed.percent() as f64 / 100.0);
    assert_eq!(percents, [0.5, 1.0, 1.5, 2.0]);
}

#[test]
fn controls_hide_after_three_seconds_of_play() {
    let second = SECOND as u128;
    let mut view = ready();
    view.mouse_moved(10 * second);
    view.tick(None, None, 13 * second);
    assert!(view.render_controls().is_some());
    view.tick(None, None, 13 * second + 1);
    assert!(view.render_controls().is_none());
    view.mouse_moved(14 * second);
    assert!(view.render_controls().is_some());
}

#[test]
fn controls_stay_while_paused() {
    let mut view = ready();
    view.toggle_play_pause(0);
    view.tick(None, None, 1_000_000_000_000);
    assert!(view.render_controls().is_some());
}

#[test]
fn clock_that_runs_backward_hides_nothing() {
    let mut view = ready();
    view.mouse_moved(1_000_000_000_000);
    view.tick(None, None, 0);
    assert!(view.render_controls().is_some());
}

#[test]
fn position_and_length_follow_the_pipeline() {
    let mut view = at(75 * SECOND, 3600 * SECOND);
    assert_eq!(view.render_controls().unwrap().time_text, "1:15 / 60:00");
    view.tick(None, Some(0), 0);
    assert_eq!(view.render_controls().unwrap().time_text, "1:15 / 60:00");
    view.tick(Some(76 * SECOND), None, 0);
    assert_eq!(view.render_controls().unwrap().time_text, "1:16 / 60:00");
}

#[test]
fn pane_without_pipeline_keeps_its_position() {
    let mut view = VideoView::new(&item("movie.mp4"), None, 0);
    view.tick(Some(SECOND), Some(SECOND), 0);
    assert_eq!(view.serialize(1, Some(1)).unwrap().position, 0);
    assert_eq!(view.choose_speed(Speed::Double, Some(1), 0), None);
    assert_eq!(view.press_seek_bar(5, 0), None);
    assert_eq!(view.close(), None);
}

#[test]
fn seek_bar_is_filled_up_to_the_position() {
    let bar = |position, duration| {
        let controls = at(position, duration).render_controls().unwrap();
        (controls.bar_filled, controls.bar_length)
    };
    assert_eq!(bar(15 * SECOND, 60 * SECOND), (15 * SECOND, 60 * SECOND));
    assert_eq!(bar(61 * SECOND, 60 * SECOND), (60 * SECOND, 60 * SECOND));
    assert_eq!(bar(SECOND / 4, SECOND / 2), (SECOND / 4, SECOND));
}

#[test]
fn press_on_the_seek_bar_jumps() {
    let mut view = at(0, 60 * SECOND);
    assert_eq!(view.press_seek_bar(7, 0), Some(Command::Seek { position: 7 }));
    let late = (1u128 << 64) + 5;
    assert_eq!(view.press_seek_bar(late, 0), Some(Command::Seek { position: 5 }));
}

#[test]
fn closed_pane_lets_the_pipeline_go() {
    let mut view = ready();
    assert_eq!(view.close(), Some(Command::SetState(PipelineState::Null)));
    assert_eq!(view.close(), None);
    assert_eq!(view.seek_backward(0), None);
}

#[test]
fn pane_is_written_down_with_its_position() {
    let view = at(9, 60 * SECOND);
    let request = view.serialize(4, Some(-2)).unwrap();
    assert_eq!((request.item_id, request.workspace_id, request.position), (4, -2, 9));
    assert_eq!(request.path, "/clips/movie.mp4");
    assert!(view.serialize(4, None).is_none());
    assert_eq!(VideoView::serialized_item_kind(), "VideoView");
    assert!(!view.should_serialize());
    assert!(view.can_split());
}

#[test]
fn tab_shows_the_file_name() {
    assert_eq!(ready().tab_content_text(), "movie.mp4");
    assert_eq!(VideoView::new(&item("/"), None, 0).tab_content_text(), "video");
}
