//! Starting the media pipeline, one step after the other.
//!
//! Each step is a call to the media library. [`PipelineStart`] says which call
//! comes next and what a failed call means; making the calls is up to the
//! caller.

use vstd::prelude::*;

use crate::paths::{
    describes_file, is_piece_of, pipeline_description, pipeline_names_the_file, pipeline_text,
    video_sink_text,
};
use crate::playback::PipelineState;

verus! {

/// The steps of a start, in their order.
#[derive(Clone, Copy, Debug, PartialEq, Eq, Structural)]
pub enum StartStep {
    Init,
    Launch,
    CastPipeline,
    CastVideoSink,
    FindFrameSink,
    CastFrameSink,
    Mute,
    Connect,
    Play,
    TakeBus,
    Watch,
}

/// Why a pipeline did not start.
#[derive(Clone, Copy, Debug, PartialEq, Eq, Structural)]
pub enum StartError {
    Init,
    Launch,
    NotAPipeline,
    VideoSinkNotABin,
    FrameSinkMissing,
    NotAFrameSink,
    Play,
    NoBus,
}

impl StartError {
    /// What the user is told of the failure.
    pub open spec fn message_text(self) -> Seq<char> {
        match self {
            StartError::Init => "Failed to initialize GStreamer"@,
            StartError::Launch => "Failed to create GStreamer pipeline"@,
            StartError::NotAPipeline => "Pipeline is not a Pipeline element"@,
            StartError::VideoSinkNotABin => "video-sink is not a bin"@,
            StartError::FrameSinkMissing => "Could not find appsink named vsink"@,
            StartError::NotAFrameSink => "vsink is not an AppSink"@,
            StartError::Play => "Failed to start pipeline"@,
            StartError::NoBus => "No bus"@,
        }
    }

    /// What the user is told of the failure.
    pub fn message(self) -> (message: &'static str)
        ensures
            message@ == self.message_text(),
    {
        match self {
            StartError::Init => "Failed to initialize GStreamer",
            StartError::Launch => "Failed to create GStreamer pipeline",
            StartError::NotAPipeline => "Pipeline is not a Pipeline element",
            StartError::VideoSinkNotABin => "video-sink is not a bin",
            StartError::FrameSinkMissing => "Could not find appsink named vsink",
            StartError::NotAFrameSink => "vsink is not an AppSink",
            StartError::Play => "Failed to start pipeline",
            StartError::NoBus => "No bus",
        }
    }
}

impl StartStep {
    /// The step after this one; `None` after the last.
    pub open spec fn next(self) -> Option<StartStep> {
        match self {
            StartStep::Init => Some(StartStep::Launch),
            StartStep::Launch => Some(StartStep::CastPipeline),
            StartStep::CastPipeline => Some(StartStep::CastVideoSink),
            StartStep::CastVideoSink => Some(StartStep::FindFrameSink),
            StartStep::FindFrameSink => Some(StartStep::CastFrameSink),
            StartStep::CastFrameSink => Some(StartStep::Mute),
            StartStep::Mute => Some(StartStep::Connect),
            StartStep::Connect => Some(StartStep::Play),
            StartStep::Play => Some(StartStep::TakeBus),
            StartStep::TakeBus => Some(StartStep::Watch),
            StartStep::Watch => None,
        }
    }

    /// What it means when this step fails; `None` for a step that cannot.
    pub open spec fn failure(self) -> Option<StartError> {
        match self {
            StartStep::Init => Some(StartError::Init),
            StartStep::Launch => Some(StartError::Launch),
            StartStep::CastPipeline => Some(StartError::NotAPipeline),
            StartStep::CastVideoSink => Some(StartError::VideoSinkNotABin),
            StartStep::FindFrameSink => Some(StartError::FrameSinkMissing),
            StartStep::CastFrameSink => Some(StartError::NotAFrameSink),
            StartStep::Mute => None,
            StartStep::Connect => None,
            StartStep::Play => Some(StartError::Play),
            StartStep::TakeBus => Some(StartError::NoBus),
            StartStep::Watch => None,
        }
    }

    /// How many steps come before this one.
    pub open spec fn rank(self) -> int {
        match self {
            StartStep::Init => 0,
            StartStep::Launch => 1,
            StartStep::CastPipeline => 2,
            StartStep::CastVideoSink => 3,
            StartStep::FindFrameSink => 4,
            StartStep::CastFrameSink => 5,
            StartStep::Mute => 6,
            StartStep::Connect => 7,
            StartStep::Play => 8,
            StartStep::TakeBus => 9,
            StartStep::Watch => 10,
        }
    }
}

/// The call to make next.
pub enum StartAction {
    /// Initialise the media library.
    Init,
    /// Build the pipeline that a text describes.
    Launch { description: String },
    /// Take what was built as a pipeline.
    CastPipeline,
    /// Take the video sink of the pipeline as a bin.
    CastVideoSink,
    /// Look the sink of that name up in the bin.
    FindFrameSink { name: &'static str },
    /// Take what was found as a sink that hands out frames.
    CastFrameSink,
    /// Set the volume of the pipeline, in percent of the full one.
    SetVolume { percent: u32 },
    /// Have the sink deliver its samples to the frame slot.
    Connect,
    /// Put the pipeline into a state.
    SetState(PipelineState),
    /// Take the bus on which the pipeline reports.
    TakeBus,
    /// Follow what is reported on the bus.
    Watch,
}

impl StartAction {
    /// The action is the one of `step`, in the start of the pipeline that
    /// `description` describes.
    pub open spec fn is_of(self, step: StartStep, description: Seq<char>) -> bool {
        match step {
            StartStep::Init => self is Init,
            StartStep::Launch => self matches StartAction::Launch { description: d } && d@
                == description,
            StartStep::CastPipeline => self is CastPipeline,
            StartStep::CastVideoSink => self is CastVideoSink,
            StartStep::FindFrameSink => self matches StartAction::FindFrameSink { name } && name@
                == "vsink"@,
            StartStep::CastFrameSink => self is CastFrameSink,
            StartStep::Mute => self == (StartAction::SetVolume { percent: 0 }),
            StartStep::Connect => self is Connect,
            StartStep::Play => self == StartAction::SetState(PipelineState::Playing),
            StartStep::TakeBus => self is TakeBus,
            StartStep::Watch => self is Watch,
        }
    }
}

/// Where a start stands after a step.
#[derive(Clone, Copy, Debug, PartialEq, Eq)]
pub enum StartProgress {
    /// There is another step to take.
    Continue,
    /// The start is over.
    Finished(Result<(), StartError>),
}

/// A start that is under way.
pub struct PipelineStart {
    step: StartStep,
    description: String,
}

impl PipelineStart {
    /// The step to take next.
    pub closed spec fn step(self) -> StartStep {
        self.step
    }

    /// The description of the pipeline that is started.
    pub closed spec fn description(self) -> Seq<char> {
        self.description@
    }

    /// The start of the pipeline that plays the file at `path`.
    pub fn new(path: &str) -> (start: PipelineStart)
        ensures
            start.step() == StartStep::Init,
            start.description() == pipeline_text(path@),
            describes_file(start.description(), path@),
    {
        proof {
            pipeline_names_the_file(path@);
        }
        PipelineStart { step: StartStep::Init, description: pipeline_description(path) }
    }

    /// The call to make next.
    pub fn action(&self) -> (action: StartAction)
        ensures
            action.is_of(self.step(), self.description()),
    {
        match self.step {
            StartStep::Init => StartAction::Init,
            StartStep::Launch => StartAction::Launch { description: self.description.clone() },
            StartStep::CastPipeline => StartAction::CastPipeline,
            StartStep::CastVideoSink => StartAction::CastVideoSink,
            StartStep::FindFrameSink => StartAction::FindFrameSink { name: "vsink" },
            StartStep::CastFrameSink => StartAction::CastFrameSink,
            StartStep::Mute => StartAction::SetVolume { percent: 0 },
            StartStep::Connect => StartAction::Connect,
            StartStep::Play => StartAction::SetState(PipelineState::Playing),
            StartStep::TakeBus => StartAction::TakeBus,
            StartStep::Watch => StartAction::Watch,
        }
    }

    /// Goes on after the call was made; `succeeded` says how it ended. A step
    /// that cannot fail counts as succeeded.
    pub fn advance(&mut self, succeeded: bool) -> (progress: StartProgress)
        ensures
            progress == progress_after(old(self).step(), succeeded),
            final(self).step() == if progress is Continue {
                old(self).step().next()->0
            } else {
                old(self).step()
            },
            final(self).description() == old(self).description(),
    {
        let (next, failure) = match self.step {
            StartStep::Init => (Some(StartStep::Launch), Some(StartError::Init)),
            StartStep::Launch => (Some(StartStep::CastPipeline), Some(StartError::Launch)),
            StartStep::CastPipeline => (
                Some(StartStep::CastVideoSink),
                Some(StartError::NotAPipeline),
            ),
            StartStep::CastVideoSink => (
                Some(StartStep::FindFrameSink),
                Some(StartError::VideoSinkNotABin),
            ),
            StartStep::FindFrameSink => (
                Some(StartStep::CastFrameSink),
                Some(StartError::FrameSinkMissing),
            ),
            StartStep::CastFrameSink => (Some(StartStep::Mute), Some(StartError::NotAFrameSink)),
            StartStep::Mute => (Some(StartStep::Connect), None),
            StartStep::Connect => (Some(StartStep::Play), None),
            StartStep::Play => (Some(StartStep::TakeBus), Some(StartError::Play)),
            StartStep::TakeBus => (Some(StartStep::Watch), Some(StartError::NoBus)),
            StartStep::Watch => (None, None),
        };
        if !succeeded {
            if let Some(error) = failure {
                return StartProgress::Finished(Err(error));
            }
        }
        match next {
            Some(step) => {
                self.step = step;
                StartProgress::Continue
            },
            None => StartProgress::Finished(Ok(())),
        }
    }
}

/// Where a start stands after `step` was taken.
pub open spec fn progress_after(step: StartStep, succeeded: bool) -> StartProgress {
    match step.failure() {
        Some(error) if !succeeded => StartProgress::Finished(Err(error)),
        _ => match step.next() {
            Some(_) => StartProgress::Continue,
            None => StartProgress::Finished(Ok(())),
        },
    }
}

/// How a start ends that goes on from `step`, where `succeeds` tells of each
/// step whether its call succeeds.
pub open spec fn start_result(
    step: StartStep,
    succeeds: spec_fn(StartStep) -> bool,
) -> Result<(), StartError>
    decreases 10 - step.rank(),
{
    match progress_after(step, succeeds(step)) {
        StartProgress::Finished(result) => result,
        StartProgress::Continue => match step.next() {
            Some(next) => start_result(next, succeeds),
            None => Ok(()),
        },
    }
}

/// A pipeline is started exactly if every step that can fail succeeds.
pub proof fn start_succeeds_if_every_step_does(succeeds: spec_fn(StartStep) -> bool)
    ensures
        start_result(StartStep::Init, succeeds) is Ok <==> forall|s: StartStep|
            (#[trigger] s.failure()) is Some ==> succeeds(s),
{
    start_from(StartStep::Init, succeeds);
}

/// The error of a failed start is the one of the first step that failed: all
/// steps before it succeeded, if they could fail at all.
pub proof fn start_reports_the_first_failure(succeeds: spec_fn(StartStep) -> bool)
    requires
        start_result(StartStep::Init, succeeds) is Err,
    ensures
        exists|s: StartStep|
            {
                &&& (#[trigger] s.failure()) == Some(start_result(StartStep::Init, succeeds)->Err_0)
                &&& !succeeds(s)
                &&& forall|t: StartStep|
                    t.rank() < s.rank() && (#[trigger] t.failure()) is Some ==> succeeds(t)
            },
{
    start_from(StartStep::Init, succeeds);
}

/// Induction over the steps from `step` on.
proof fn start_from(step: StartStep, succeeds: spec_fn(StartStep) -> bool)
    ensures
        start_result(step, succeeds) is Ok <==> forall|s: StartStep|
            step.rank() <= s.rank() && (#[trigger] s.failure()) is Some ==> succeeds(s),
        start_result(step, succeeds) matches Err(e) ==> exists|s: StartStep|
            {
                &&& (#[trigger] s.failure()) == Some(e)
                &&& step.rank() <= s.rank()
                &&& !succeeds(s)
                &&& forall|t: StartStep|
                    step.rank() <= t.rank() < s.rank() && (#[trigger] t.failure()) is Some
                        ==> succeeds(t)
            },
    decreases 10 - step.rank(),
{
    rank_is_injective();
    match step.next() {
        Some(next) => {
            start_from(next, succeeds);
        },
        None => {},
    }
    if step.failure() is Some && !succeeds(step) {
        assert(step.failure() == Some(start_result(step, succeeds)->Err_0));
    }
}

proof fn rank_is_injective()
    ensures
        forall|s: StartStep, t: StartStep| #[trigger] s.rank() == #[trigger] t.rank() ==> s == t,
{
}

/// The pipeline is silent before it plays: the volume is set to zero before
/// the pipeline is put into the playing state.
pub proof fn muted_before_playing(mute: StartStep, play: StartStep, description: Seq<char>)
    requires
        (StartAction::SetVolume { percent: 0 }).is_of(mute, description),
        StartAction::SetState(PipelineState::Playing).is_of(play, description),
    ensures
        mute.rank() < play.rank(),
{
}

/// A start takes one step after the other, from the first to the eleventh, and
/// leaves none out.
pub proof fn steps_follow_each_other(step: StartStep)
    ensures
        0 <= step.rank() <= 10,
        step.rank() == 0 <==> step == StartStep::Init,
        step.rank() == 10 <==> step.next() is None,
        step.next() matches Some(next) ==> next.rank() == step.rank() + 1,
{
}

/// A step that succeeded leads to the next, and the last one to a started
/// pipeline; a step that failed ends the start, unless it is muting,
/// connecting or watching, which cannot fail.
pub proof fn steps_end_a_start_when_they_fail(step: StartStep, succeeded: bool)
    ensures
        succeeded ==> !(progress_after(step, succeeded) matches StartProgress::Finished(Err(_))),
        progress_after(step, succeeded) == StartProgress::Finished(Ok(())) ==> step
            == StartStep::Watch,
        !succeeded && step != StartStep::Mute && step != StartStep::Connect && step
            != StartStep::Watch ==> (progress_after(step, succeeded) matches StartProgress::Finished(
            Err(_),
        )),
        step == StartStep::Watch ==> progress_after(step, succeeded) == StartProgress::Finished(
            Ok(()),
        ),
{
}

/// The steps come in the order of the library's calls: it is initialised, the
/// pipeline is built and taken apart down to the sink of the frames, muted and
/// connected, and only then does it play and is its bus followed.
pub proof fn steps_come_in_order(step: StartStep, next: StartStep)
    requires
        step.next() == Some(next),
    ensures
        step == StartStep::Init <==> next == StartStep::Launch,
        step == StartStep::Launch <==> next == StartStep::CastPipeline,
        step == StartStep::CastPipeline <==> next == StartStep::CastVideoSink,
        step == StartStep::CastVideoSink <==> next == StartStep::FindFrameSink,
        step == StartStep::FindFrameSink <==> next == StartStep::CastFrameSink,
        step == StartStep::CastFrameSink <==> next == StartStep::Mute,
        step == StartStep::Mute <==> next == StartStep::Connect,
        step == StartStep::Connect <==> next == StartStep::Play,
        step == StartStep::Play <==> next == StartStep::TakeBus,
        step == StartStep::TakeBus <==> next == StartStep::Watch,
{
}

/// The action of a step is the call that the step is named after, and what it
/// carries is what it should: the whole description, the name of the sink, no
/// volume at all, the playing state.
pub proof fn actions_fit_their_steps(
    action: StartAction,
    step: StartStep,
    description: Seq<char>,
)
    requires
        action.is_of(step, description),
    ensures
        action is Init <==> step == StartStep::Init,
        action is Launch <==> step == StartStep::Launch,
        action is CastPipeline <==> step == StartStep::CastPipeline,
        action is CastVideoSink <==> step == StartStep::CastVideoSink,
        action is FindFrameSink <==> step == StartStep::FindFrameSink,
        action is CastFrameSink <==> step == StartStep::CastFrameSink,
        action is SetVolume <==> step == StartStep::Mute,
        action is Connect <==> step == StartStep::Connect,
        action is SetState <==> step == StartStep::Play,
        action is TakeBus <==> step == StartStep::TakeBus,
        action is Watch <==> step == StartStep::Watch,
        action matches StartAction::Launch { description: d } ==> d@ == description,
        action matches StartAction::FindFrameSink { name } ==> name@ == seq![
            'v',
            's',
            'i',
            'n',
            'k',
        ],
        action matches StartAction::SetVolume { percent } ==> percent == 0,
        action matches StartAction::SetState(state) ==> state == PipelineState::Playing,
{
    reveal_strlit("vsink");
    assert("vsink"@ =~= seq!['v', 's', 'i', 'n', 'k']);
}

/// The sink that a start looks up is one that the description of its pipeline
/// names, whatever the file.
pub proof fn described_sink_is_looked_up(action: StartAction, path: Seq<char>)
    requires
        action.is_of(StartStep::FindFrameSink, pipeline_text(path)),
    ensures
        action matches StartAction::FindFrameSink { name } && is_piece_of(
            "appsink name="@ + name@ + seq![' '],
            pipeline_text(path),
        ),
{
    reveal_strlit("vsink");
    reveal_strlit("appsink name=");
    reveal_strlit(
        "\" video-sink=\"videoconvert ! video/x-raw,format=BGRA ! appsink name=vsink drop=true max-buffers=3 enable-last-sample=false\"",
    );
    let text = pipeline_text(path);
    let start = text.len() - video_sink_text().len() + 55;
    assert(text.subrange(start, start + 19) =~= "appsink name="@ + "vsink"@ + seq![' ']);
}

/// Each step that can fail has an error of its own, and the user is told
/// another thing of each.
pub proof fn failures_are_told_apart(s: StartStep, t: StartStep)
    ensures
        s.failure() is Some && s.failure() == t.failure() ==> s == t,
        s.failure() is None <==> s == StartStep::Mute || s == StartStep::Connect || s
            == StartStep::Watch,
        s.failure() is Some && t.failure() is Some && s.failure()->0.message_text()
            == t.failure()->0.message_text() ==> s == t,
        s.failure() matches Some(error) ==> progress_after(s, false) == StartProgress::Finished(
            Err(error),
        ),
{
    reveal_strlit("Failed to initialize GStreamer");
    reveal_strlit("Failed to create GStreamer pipeline");
    reveal_strlit("Pipeline is not a Pipeline element");
    reveal_strlit("video-sink is not a bin");
    reveal_strlit("Could not find appsink named vsink");
    reveal_strlit("vsink is not an AppSink");
    reveal_strlit("Failed to start pipeline");
    reveal_strlit("No bus");
    if s.failure() is Some && t.failure() is Some {
        let a = s.failure()->0.message_text();
        let b = t.failure()->0.message_text();
        assert(s != t ==> a.len() != b.len() || a[0] != b[0] || a[1] != b[1]);
    }
}

/// A step that fails, fails with the error of its name.
pub proof fn failures_bear_the_name_of_their_step(step: StartStep)
    ensures
        step.failure() == Some(StartError::Init) <==> step == StartStep::Init,
        step.failure() == Some(StartError::Launch) <==> step == StartStep::Launch,
        step.failure() == Some(StartError::NotAPipeline) <==> step == StartStep::CastPipeline,
        step.failure() == Some(StartError::VideoSinkNotABin) <==> step == StartStep::CastVideoSink,
        step.failure() == Some(StartError::FrameSinkMissing) <==> step == StartStep::FindFrameSink,
        step.failure() == Some(StartError::NotAFrameSink) <==> step == StartStep::CastFrameSink,
        step.failure() == Some(StartError::Play) <==> step == StartStep::Play,
        step.failure() == Some(StartError::NoBus) <==> step == StartStep::TakeBus,
{
}

} // verus!
