use video_viewer::playback::PipelineState;
use video_viewer::start::{PipelineStart, StartAction, StartError, StartProgress};

/// Runs a start in which the step of the given number fails.
fn run(failing: usize) -> (Vec<&'static str>, Result<(), StartError>) {
    let mut start = PipelineStart::new("/clips/movie.mp4");
    let mut actions: Vec<&'static str> = Vec::new();
    loop {
        actions.push(match start.action() {
            StartAction::Init => "init",
            StartAction::Launch { description } => {
                assert!(description.starts_with("playbin uri=\"file:///clips/movie.mp4\" "));
                "launch"
            }
            StartAction::CastPipeline => "pipeline",
            StartAction::CastVideoSink => "sink",
            StartAction::FindFrameSink { name } => {
                assert_eq!(name, "vsink");
                "find"
            }
            StartAction::CastFrameSink => "frames",
            StartAction::SetVolume { percent } => {
                assert_eq!(percent, 0);
                "mute"
            }
            StartAction::Connect => "connect",
            StartAction::SetState(state) => {
                assert_eq!(state, PipelineState::Playing);
                "play"
            }
            StartAction::TakeBus => "bus",
            StartAction::Watch => "watch",
        });
        if let StartProgress::Finished(result) = start.advance(actions.len() != failing + 1) {
            return (actions, result);
        }
    }
}

const ALL: [&str; 11] = [
    "init", "launch", "pipeline", "sink", "find", "frames", "mute", "connect", "play", "bus",
    "watch",
];

#[test]
fn start_without_failure_takes_every_step() {
    assert_eq!(run(ALL.len()), (ALL.to_vec(), Ok(())));
}

#[test]
fn failed_step_ends_the_start_with_its_error() {
    let errors = [
        (0, StartError::Init, "Failed to initialize GStreamer"),
        (1, StartError::Launch, "Failed to create GStreamer pipeline"),
        (2, StartError::NotAPipeline, "Pipeline is not a Pipeline element"),
        (3, StartError::VideoSinkNotABin, "video-sink is not a bin"),
        (4, StartError::FrameSinkMissing, "Could not find appsink named vsink"),
        (5, StartError::NotAFrameSink, "vsink is not an AppSink"),
        (8, StartError::Play, "Failed to start pipeline"),
        (9, StartError::NoBus, "No bus"),
    ];
    for (step, error, message) in errors {
        assert_eq!(run(step), (ALL[..step + 1].to_vec(), Err(error)));
        assert_eq!(error.message(), message);
    }
}

#[test]
fn steps_that_cannot_fail_do_not_end_the_start() {
    for step in [6, 7, 10] {
        assert_eq!(run(step), (ALL.to_vec(), Ok(())));
    }
}

#[test]
fn pipeline_is_muted_before_it_plays() {
    let (actions, _) = run(ALL.len());
    let place = |name| actions.iter().position(|a| *a == name).unwrap();
    assert!(place("mute") < place("play"));
}
