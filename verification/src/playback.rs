//! The vocabulary of playback: what the viewer can be doing, how fast it
//! plays, and what it asks of the media pipeline.

use vstd::prelude::*;

verus! {

/// Whether the video is playing or paused.
#[derive(Clone, Copy, Debug, PartialEq, Eq, Structural)]
pub enum PlaybackState {
    Playing,
    Paused,
}

impl PlaybackState {
    /// The other of the two states.
    pub open spec fn flipped(self) -> PlaybackState {
        match self {
            PlaybackState::Playing => PlaybackState::Paused,
            PlaybackState::Paused => PlaybackState::Playing,
        }
    }

    /// The state of the media pipeline that goes with this one.
    pub open spec fn pipeline_state(self) -> PipelineState {
        match self {
            PlaybackState::Playing => PipelineState::Playing,
            PlaybackState::Paused => PipelineState::Paused,
        }
    }
}

/// A state that the media pipeline can be put into. `Null` releases all that
/// the pipeline holds.
#[derive(Clone, Copy, Debug, PartialEq, Eq, Structural)]
pub enum PipelineState {
    Playing,
    Paused,
    Null,
}

/// The speeds that the viewer offers.
#[derive(Clone, Copy, Debug, PartialEq, Eq, Structural)]
pub enum Speed {
    Half,
    Normal,
    OneAndAHalf,
    Double,
}

impl Speed {
    /// The speed in percent of the normal one.
    pub open spec fn as_percent(self) -> u32 {
        match self {
            Speed::Half => 50,
            Speed::Normal => 100,
            Speed::OneAndAHalf => 150,
            Speed::Double => 200,
        }
    }

    /// The speed in percent of the normal one.
    pub fn percent(self) -> (percent: u32)
        ensures
            percent == self.as_percent(),
    {
        match self {
            Speed::Half => 50,
            Speed::Normal => 100,
            Speed::OneAndAHalf => 150,
            Speed::Double => 200,
        }
    }

    /// The text on the button of this speed.
    pub open spec fn label_text(self) -> Seq<char> {
        match self {
            Speed::Half => "0.5×"@,
            Speed::Normal => "1×"@,
            Speed::OneAndAHalf => "1.5×"@,
            Speed::Double => "2×"@,
        }
    }

    /// The text on the button of this speed.
    pub fn label(self) -> (label: &'static str)
        ensures
            label@ == self.label_text(),
    {
        match self {
            Speed::Half => "0.5×",
            Speed::Normal => "1×",
            Speed::OneAndAHalf => "1.5×",
            Speed::Double => "2×",
        }
    }
}

/// The speeds that the viewer offers, in the order of their buttons.
pub open spec fn offered_speeds() -> Seq<Speed> {
    seq![Speed::Half, Speed::Normal, Speed::OneAndAHalf, Speed::Double]
}

/// A request to the media pipeline. Times are in nanoseconds from the start
/// of the video.
#[derive(Clone, Copy, Debug, PartialEq, Eq, Structural)]
pub enum Command {
    /// Go into a state.
    SetState(PipelineState),
    /// Drop what is under way and go on from the key frame at a time.
    Seek { position: u64 },
    /// Drop what is under way and go on at a speed, from exactly a time to the
    /// end of the video.
    SeekAtSpeed { speed: Speed, position: u64 },
    /// Play at a volume, in percent of the full one.
    SetVolume { percent: u32 },
}

/// What the media pipeline reports.
pub enum BusEvent {
    /// The video is over.
    EndOfStream,
    /// Playback failed.
    Error(String),
    /// A start or a seek is done.
    AsyncDone,
    /// Anything else.
    Other,
}

impl BusEvent {
    /// What the media pipeline is asked to do in answer to an event, whatever
    /// the state of the pane: at its end a video starts over.
    pub open spec fn answer_commands(self) -> Seq<Command> {
        if self is EndOfStream {
            seq![Command::Seek { position: 0 }, Command::SetState(PipelineState::Playing)]
        } else {
            Seq::empty()
        }
    }

    /// What to ask of the media pipeline, in this order, when it reports the
    /// event.
    pub fn answer(&self) -> (commands: Vec<Command>)
        ensures
            commands@ == self.answer_commands(),
    {
        let mut commands: Vec<Command> = Vec::new();
        match self {
            BusEvent::EndOfStream => {
                commands.push(Command::Seek { position: 0 });
                commands.push(Command::SetState(PipelineState::Playing));
            },
            _ => {},
        }
        proof {
            assert(commands@ =~= self.answer_commands());
        }
        commands
    }

    /// Whether the event changes anything in the pane.
    pub fn concerns_pane(&self) -> (concerns: bool)
        ensures
            concerns == (self is Error || self is AsyncDone),
    {
        match self {
            BusEvent::Error(_) => true,
            BusEvent::AsyncDone => true,
            _ => false,
        }
    }
}

/// Flipping the playback state twice leads back to where it was, and never
/// leaves it as it is.
pub proof fn flip_is_an_involution(state: PlaybackState)
    ensures
        state.flipped().flipped() == state,
        state.flipped() != state,
{
}

/// Different speeds have different rates and different labels, so each button
/// stands for one speed.
pub proof fn speeds_are_told_apart(a: Speed, b: Speed)
    ensures
        a.as_percent() == b.as_percent() ==> a == b,
        a.label_text() == b.label_text() ==> a == b,
        offered_speeds().contains(a),
{
    reveal_strlit("0.5×");
    reveal_strlit("1×");
    reveal_strlit("1.5×");
    reveal_strlit("2×");
    if a.label_text() == b.label_text() {
        assert(a.label_text()[0] == b.label_text()[0]);
        assert(a.label_text().len() == b.label_text().len());
    }
    assert(offered_speeds()[0] == Speed::Half);
    assert(offered_speeds()[1] == Speed::Normal);
    assert(offered_speeds()[2] == Speed::OneAndAHalf);
    assert(offered_speeds()[3] == Speed::Double);
}

/// The pipeline is put into the state that the pane is in.
pub proof fn pipeline_follows_the_pane(state: PlaybackState)
    ensures
        state.pipeline_state() == PipelineState::Playing <==> state == PlaybackState::Playing,
        state.pipeline_state() == PipelineState::Paused <==> state == PlaybackState::Paused,
{
}

/// The offered speeds are half of the normal one, the normal one, one and a
/// half times and twice it, in this order.
pub proof fn offered_speeds_are_half_steps(i: int)
    requires
        0 <= i < offered_speeds().len(),
    ensures
        offered_speeds().len() == 4,
        offered_speeds()[i].as_percent() == 50 * (i + 1),
{
}

} // verus!
