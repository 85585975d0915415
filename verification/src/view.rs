//! The state of a video pane and how it reacts to the user, to the clock and
//! to the media pipeline.

use vstd::prelude::*;

use crate::item::VideoItem;
use crate::paths::{is_portable, is_title_for, tab_title, title_text};
use crate::playback::{BusEvent, Command, offered_speeds, PipelineState, PlaybackState, Speed};
use crate::start::StartError;
use crate::text::{clock_text, format_time, NANOS_PER_SEC};

verus! {

/// How far a jump forward or backward goes: five seconds.
pub const SEEK_STEP: u64 = 5_000_000_000;

/// How long the controls stay after the last interaction: three seconds.
pub const CONTROLS_TIMEOUT: u128 = 3_000_000_000;

/// How often a pane is brought up to date: every 250 milliseconds.
pub const TICK_MILLIS: u64 = 250;

/// How often the reports of the pipeline are read: every 100 milliseconds.
pub const BUS_POLL_MILLIS: u64 = 100;

/// The width that a press on the seek bar is measured by, in pixels.
pub const SEEK_BAR_WIDTH: u16 = 400;

/// The last point in time that the media pipeline can name, in nanoseconds.
/// The number after it stands for no time at all.
pub const LAST_TIME: u64 = 0xffff_ffff_ffff_fffe;

/// The full volume, in percent.
pub const FULL_VOLUME: u32 = 100;

/// The least volume that unmuting leads to, in percent.
pub const LEAST_VOLUME: u32 = 10;

/// What a pane tells its surroundings.
#[derive(Clone, Copy, Debug, PartialEq, Eq, Structural)]
pub enum VideoViewEvent {
    TitleChanged,
}

/// The state of a video pane. Points in the video are in nanoseconds from its
/// start; the time of day is in nanoseconds from a moment that the caller
/// chooses once.
pub struct VideoView {
    path: String,
    has_pipeline: bool,
    playback: PlaybackState,
    position: u64,
    duration: u64,
    volume: u32,
    prev_volume: u32,
    speed: Speed,
    loading: bool,
    error: Option<String>,
    controls_visible: bool,
    last_interaction: u128,
    saved_position: Option<u128>,
}

/// The state of a pane as values.
#[verifier::ext_equal]
pub struct ViewModel {
    /// The file that is shown.
    pub path: Seq<char>,
    /// There is a media pipeline to send commands to.
    pub has_pipeline: bool,
    /// What the pane does, or will do once it is loaded.
    pub playback: PlaybackState,
    /// Where in the video the pipeline was last seen.
    pub position: u64,
    /// The length of the video, zero as long as it is not known.
    pub duration: u64,
    /// The volume in percent; zero is muted.
    pub volume: u32,
    /// The volume before it was muted.
    pub prev_volume: u32,
    pub speed: Speed,
    /// The pipeline is starting or seeking for the first time.
    pub loading: bool,
    /// What went wrong.
    pub error: Option<Seq<char>>,
    /// The overlay with the controls is not hidden.
    pub controls_visible: bool,
    /// When the user last did something.
    pub last_interaction: u128,
    /// Where the video was left the last time it was open, until playback goes
    /// on from there.
    pub saved_position: Option<u128>,
}

impl ViewModel {
    /// A pane that was just opened: it plays from the start, is muted and
    /// loads.
    pub open spec fn opened(path: Seq<char>, saved_position: Option<u128>, now: u128) -> ViewModel {
        ViewModel {
            path,
            has_pipeline: false,
            playback: PlaybackState::Playing,
            position: 0,
            duration: 0,
            volume: 0,
            prev_volume: FULL_VOLUME,
            speed: Speed::Normal,
            loading: true,
            error: None,
            controls_visible: true,
            last_interaction: now,
            saved_position,
        }
    }

    /// What holds of every pane: its times can be named to the pipeline, its
    /// volume is zero or audible, and it does not load when something is
    /// wrong.
    pub open spec fn wf(self) -> bool {
        &&& self.position <= LAST_TIME
        &&& self.duration <= LAST_TIME
        &&& self.volume == 0 || LEAST_VOLUME <= self.volume <= FULL_VOLUME
        &&& LEAST_VOLUME <= self.prev_volume <= FULL_VOLUME
        &&& self.error is Some ==> !self.loading
    }

    /// The user did something: the controls come up.
    pub open spec fn touched(self, now: u128) -> ViewModel {
        ViewModel { controls_visible: true, last_interaction: now, ..self }
    }

    /// `command`, if there is a pipeline to send it to.
    pub open spec fn to_pipeline(self, command: Command) -> Option<Command> {
        if self.has_pipeline {
            Some(command)
        } else {
            None
        }
    }

    /// What playing and pausing asks of the pipeline.
    pub open spec fn play_pause_command(self) -> Option<Command> {
        self.to_pipeline(Command::SetState(self.playback.flipped().pipeline_state()))
    }

    /// What a jump forward asks of the pipeline.
    pub open spec fn forward_command(self) -> Option<Command> {
        self.to_pipeline(Command::Seek { position: self.forward_target() })
    }

    /// What a jump backward asks of the pipeline.
    pub open spec fn backward_command(self) -> Option<Command> {
        self.to_pipeline(Command::Seek { position: self.backward_target() })
    }

    /// What the mute button asks of the pipeline.
    pub open spec fn mute_command(self, now: u128) -> Option<Command> {
        self.to_pipeline(Command::SetVolume { percent: self.mute_toggled(now).volume })
    }

    /// What choosing a speed asks of the pipeline, which says it is at
    /// `position`.
    pub open spec fn speed_command(self, speed: Speed, position: Option<u64>) -> Option<Command> {
        match position {
            Some(p) => self.to_pipeline(Command::SeekAtSpeed { speed, position: p }),
            None => None,
        }
    }

    /// What a press on the seek bar asks of the pipeline.
    pub open spec fn seek_bar_command(self, target: u128) -> Option<Command> {
        self.to_pipeline(Command::Seek { position: pipeline_time(target) })
    }

    /// The seek bar was pressed.
    pub open spec fn seek_bar_pressed(self, now: u128) -> ViewModel {
        ViewModel { last_interaction: now, ..self }
    }

    /// What closing the pane asks of the pipeline.
    pub open spec fn close_command(self) -> Option<Command> {
        self.to_pipeline(Command::SetState(PipelineState::Null))
    }

    /// The pane was closed.
    pub open spec fn closed(self) -> ViewModel {
        ViewModel { has_pipeline: false, ..self }
    }

    /// The pane has to be painted again soon.
    pub open spec fn wants_frame(self, frame_ready: bool) -> bool {
        self.playback == PlaybackState::Playing || frame_ready
    }

    /// The icon on the button that plays and pauses.
    pub open spec fn play_icon_text(self) -> Seq<char> {
        if self.playback == PlaybackState::Playing {
            "⏸"@
        } else {
            "▶"@
        }
    }

    /// The icon on the mute button.
    pub open spec fn mute_icon_text(self) -> Seq<char> {
        if self.volume == 0 {
            "🔇"@
        } else {
            "🔊"@
        }
    }

    /// Playback is paused if it was going on, and goes on if it was paused.
    pub open spec fn play_pause_toggled(self, now: u128) -> ViewModel {
        ViewModel { playback: self.playback.flipped(), ..self.touched(now) }
    }

    /// Where a jump forward leads: a step on, but not beyond the end.
    pub open spec fn forward_target(self) -> u64 {
        if self.position + SEEK_STEP <= self.duration {
            (self.position + SEEK_STEP) as u64
        } else {
            self.duration
        }
    }

    /// Where a jump backward leads: a step back, but not before the start.
    pub open spec fn backward_target(self) -> u64 {
        if self.position >= SEEK_STEP {
            (self.position - SEEK_STEP) as u64
        } else {
            0
        }
    }

    /// Sound is turned off, or on again at the volume it had.
    pub open spec fn mute_toggled(self, now: u128) -> ViewModel {
        if self.volume == 0 {
            ViewModel {
                volume: if self.prev_volume < LEAST_VOLUME {
                    LEAST_VOLUME
                } else {
                    self.prev_volume
                },
                ..self.touched(now)
            }
        } else {
            ViewModel { prev_volume: self.volume, volume: 0, ..self.touched(now) }
        }
    }

    /// A speed was chosen.
    pub open spec fn speed_chosen(self, speed: Speed, now: u128) -> ViewModel {
        ViewModel { speed, last_interaction: now, ..self }
    }

    /// What the pipeline says of its position and of the length of the video
    /// is taken over. A length of zero is none.
    pub open spec fn observed(self, position: Option<u64>, duration: Option<u64>) -> ViewModel {
        if self.has_pipeline {
            ViewModel {
                position: match position {
                    Some(p) => p,
                    None => self.position,
                },
                duration: match duration {
                    Some(d) if d > 0 => d,
                    _ => self.duration,
                },
                ..self
            }
        } else {
            self
        }
    }

    /// The controls have been left alone for too long while the video plays.
    pub open spec fn controls_expire(self, now: u128) -> bool {
        self.playback == PlaybackState::Playing && now - self.last_interaction > CONTROLS_TIMEOUT
    }

    /// Time has passed.
    pub open spec fn ticked(
        self,
        position: Option<u64>,
        duration: Option<u64>,
        now: u128,
    ) -> ViewModel {
        ViewModel {
            controls_visible: self.controls_visible && !self.controls_expire(now),
            ..self.observed(position, duration)
        }
    }

    /// The start of the pipeline has ended.
    pub open spec fn start_finished(self, result: Result<(), StartError>) -> ViewModel {
        match result {
            Ok(_) => ViewModel { has_pipeline: true, ..self },
            Err(e) => ViewModel {
                loading: false,
                error: Some("Failed to start video: "@ + e.message_text()),
                ..self
            },
        }
    }

    /// Another try begins: the pipeline is let go, and what went wrong is
    /// forgotten.
    pub open spec fn retried(self) -> ViewModel {
        ViewModel { error: None, loading: true, has_pipeline: false, ..self }
    }

    /// The event ends the loading of a pane that has a pipeline: the time to
    /// go back to where the video was left.
    pub open spec fn becomes_ready(self, event: BusEvent) -> bool {
        event is AsyncDone && self.loading && self.has_pipeline
    }

    /// The pipeline has reported an event. Once the pane is ready, the place
    /// where the video was left is no longer needed.
    pub open spec fn after_event(self, event: BusEvent) -> ViewModel {
        match event {
            BusEvent::Error(message) => ViewModel {
                loading: false,
                error: Some("Playback error: "@ + message@),
                ..self
            },
            BusEvent::AsyncDone => ViewModel {
                loading: false,
                saved_position: if self.becomes_ready(event) {
                    None
                } else {
                    self.saved_position
                },
                ..self
            },
            _ => self,
        }
    }

    /// Where playback is to go on from when the pipeline reports an event: once
    /// the pane is ready, where the video was left, if the pipeline can name
    /// that time.
    pub open spec fn resume_target(self, event: BusEvent) -> Option<u64> {
        match self.saved_position {
            Some(s) if self.becomes_ready(event) && s <= LAST_TIME => Some(s as u64),
            _ => None,
        }
    }

    /// What the pipeline is asked to do for the pane when it reports an event.
    pub open spec fn event_command(self, event: BusEvent) -> Option<Command> {
        match self.resume_target(event) {
            Some(position) => Some(Command::Seek { position }),
            None => None,
        }
    }

    /// The controls are on the screen.
    pub open spec fn shows_controls(self) -> bool {
        self.controls_visible && self.error is None && !self.loading
    }

    /// The length of the seek bar: the length of the video, but at least a
    /// second.
    pub open spec fn bar_length(self) -> u64 {
        if self.duration < NANOS_PER_SEC {
            NANOS_PER_SEC
        } else {
            self.duration
        }
    }

    /// How much of the seek bar is filled: up to the position, but not beyond
    /// the end of the bar.
    pub open spec fn bar_filled(self) -> u64 {
        if self.position < self.bar_length() {
            self.position
        } else {
            self.bar_length()
        }
    }

    /// The position and the length of the video as text.
    pub open spec fn time_text(self) -> Seq<char> {
        clock_text(self.position as nat / NANOS_PER_SEC as nat) + " / "@ + clock_text(
            self.duration as nat / NANOS_PER_SEC as nat,
        )
    }
}

/// What fills a pane.
pub enum Content {
    /// A text while the video loads.
    Loading { text: &'static str },
    /// What went wrong, and the label of the button for another try.
    Failed { message: String, button: &'static str },
    /// The video.
    Video,
}

/// A button that chooses a speed.
pub struct SpeedButton {
    pub speed: Speed,
    pub label: &'static str,
    /// The speed is the one at which the video plays.
    pub active: bool,
}

/// The overlay with the controls.
pub struct Controls {
    pub play_icon: &'static str,
    pub mute_icon: &'static str,
    /// How much of the seek bar is filled.
    pub bar_filled: u64,
    /// The length of the seek bar.
    pub bar_length: u64,
    pub time_text: String,
    pub speeds: Vec<SpeedButton>,
}

/// What is written down of a pane so that it can be opened again.
pub struct SaveRequest {
    pub item_id: u64,
    pub workspace_id: i64,
    pub path: String,
    pub position: u64,
}

impl View for VideoView {
    type V = ViewModel;

    closed spec fn view(&self) -> ViewModel {
        ViewModel {
            path: self.path@,
            has_pipeline: self.has_pipeline,
            playback: self.playback,
            position: self.position,
            duration: self.duration,
            volume: self.volume,
            prev_volume: self.prev_volume,
            speed: self.speed,
            loading: self.loading,
            error: match self.error {
                Some(e) => Some(e@),
                None => None,
            },
            controls_visible: self.controls_visible,
            last_interaction: self.last_interaction,
            saved_position: self.saved_position,
        }
    }
}

impl VideoView {
    #[verifier::type_invariant]
    spec fn inv(self) -> bool {
        self@.wf()
    }

    /// Opens a pane on `item`. `saved_position` is where the video was left
    /// the last time.
    pub fn new(item: &VideoItem, saved_position: Option<u128>, now: u128) -> (view: VideoView)
        ensures
            view@ == ViewModel::opened(item.abs_path@, saved_position, now),
    {
        VideoView {
            path: item.abs_path.clone(),
            has_pipeline: false,
            playback: PlaybackState::Playing,
            position: 0,
            duration: 0,
            volume: 0,
            prev_volume: FULL_VOLUME,
            speed: Speed::Normal,
            loading: true,
            error: None,
            controls_visible: true,
            last_interaction: now,
            saved_position,
        }
    }

    /// Takes over how the start of the pipeline ended.
    pub fn finish_start(&mut self, result: Result<(), StartError>)
        ensures
            final(self)@ == old(self)@.start_finished(result),
    {
        proof {
            use_type_invariant(&*self);
        }
        match result {
            Ok(_) => {
                self.has_pipeline = true;
            },
            Err(e) => {
                self.loading = false;
                self.error = Some("Failed to start video: ".to_owned().concat(e.message()));
            },
        }
    }

    /// Gets ready for another start of the pipeline.
    pub fn retry(&mut self)
        ensures
            final(self)@ == old(self)@.retried(),
    {
        proof {
            use_type_invariant(&*self);
        }
        self.error = None;
        self.loading = true;
        self.has_pipeline = false;
    }

    /// Brings the pane up to date: `position` and `duration` are what the
    /// pipeline says of itself, where it says anything.
    pub fn tick(&mut self, position: Option<u64>, duration: Option<u64>, now: u128)
        requires
            position matches Some(p) ==> p <= LAST_TIME,
            duration matches Some(d) ==> d <= LAST_TIME,
        ensures
            final(self)@ == old(self)@.ticked(position, duration, now),
    {
        proof {
            use_type_invariant(&*self);
        }
        if self.has_pipeline {
            if let Some(p) = position {
                self.position = p;
            }
            if let Some(d) = duration {
                if d > 0 {
                    self.duration = d;
                }
            }
        }
        if self.controls_visible && now.saturating_sub(self.last_interaction) > CONTROLS_TIMEOUT
            && self.playback == PlaybackState::Playing {
            self.controls_visible = false;
        }
    }

    /// Takes over what the pipeline reports. When the pane is ready, playback
    /// goes on where the video was left.
    pub fn handle_event(&mut self, event: BusEvent) -> (command: Option<Command>)
        ensures
            final(self)@ == old(self)@.after_event(event),
            command == old(self)@.event_command(event),
    {
        proof {
            use_type_invariant(&*self);
        }
        match event {
            BusEvent::Error(message) => {
                self.loading = false;
                self.error = Some("Playback error: ".to_owned().concat(message.as_str()));
                None
            },
            BusEvent::AsyncDone => {
                let ready = self.loading && self.has_pipeline;
                self.loading = false;
                if !ready {
                    return None;
                }
                let saved = self.saved_position;
                self.saved_position = None;
                match saved {
                    Some(s) => if s <= LAST_TIME as u128 {
                        Some(Command::Seek { position: s as u64 })
                    } else {
                        None
                    },
                    None => None,
                }
            },
            _ => None,
        }
    }

    /// `command`, if there is a pipeline to send it to.
    fn command(&self, command: Command) -> (sent: Option<Command>)
        ensures
            sent == self@.to_pipeline(command),
    {
        if self.has_pipeline {
            Some(command)
        } else {
            None
        }
    }

    /// Pauses the video, or lets it go on.
    pub fn toggle_play_pause(&mut self, now: u128) -> (command: Option<Command>)
        ensures
            final(self)@ == old(self)@.play_pause_toggled(now),
            command == old(self)@.to_pipeline(
                Command::SetState(old(self)@.playback.flipped().pipeline_state()),
            ),
            command == old(self)@.play_pause_command(),
            final(self)@.playback != old(self)@.playback,
    {
        proof {
            use_type_invariant(&*self);
        }
        self.last_interaction = now;
        self.controls_visible = true;
        if self.playback == PlaybackState::Playing {
            self.playback = PlaybackState::Paused;
            self.command(Command::SetState(PipelineState::Paused))
        } else {
            self.playback = PlaybackState::Playing;
            self.command(Command::SetState(PipelineState::Playing))
        }
    }

    /// Jumps forward.
    pub fn seek_forward(&mut self, now: u128) -> (command: Option<Command>)
        ensures
            final(self)@ == old(self)@.touched(now),
            command == old(self)@.to_pipeline(
                Command::Seek { position: old(self)@.forward_target() },
            ),
            command == old(self)@.forward_command(),
            old(self)@.has_pipeline ==> {
                let target = old(self)@.position + 5_000_000_000;
                &&& target <= old(self)@.duration ==> command == Some(
                    Command::Seek { position: target as u64 },
                )
                &&& target > old(self)@.duration ==> command == Some(
                    Command::Seek { position: old(self)@.duration },
                )
            },
            !old(self)@.has_pipeline ==> command is None,
    {
        proof {
            use_type_invariant(&*self);
        }
        self.last_interaction = now;
        self.controls_visible = true;
        let target: u64 = self.position.saturating_add(SEEK_STEP);
        let target: u64 = if target < self.duration {
            target
        } else {
            self.duration
        };
        self.command(Command::Seek { position: target })
    }

    /// Jumps backward.
    pub fn seek_backward(&mut self, now: u128) -> (command: Option<Command>)
        ensures
            final(self)@ == old(self)@.touched(now),
            command == old(self)@.to_pipeline(
                Command::Seek { position: old(self)@.backward_target() },
            ),
            command == old(self)@.backward_command(),
            old(self)@.has_pipeline ==> {
                let target = old(self)@.position - 5_000_000_000;
                &&& target >= 0 ==> command == Some(Command::Seek { position: target as u64 })
                &&& target < 0 ==> command == Some(Command::Seek { position: 0 })
            },
            !old(self)@.has_pipeline ==> command is None,
    {
        proof {
            use_type_invariant(&*self);
        }
        self.last_interaction = now;
        self.controls_visible = true;
        let target: u64 = self.position.saturating_sub(SEEK_STEP);
        self.command(Command::Seek { position: target })
    }

    /// Turns the sound off, or on again.
    pub fn toggle_mute(&mut self, now: u128) -> (command: Option<Command>)
        ensures
            final(self)@ == old(self)@.mute_toggled(now),
            command == old(self)@.to_pipeline(
                Command::SetVolume { percent: old(self)@.mute_toggled(now).volume },
            ),
            command == old(self)@.mute_command(now),
            command is Some ==> command == Some(
                Command::SetVolume { percent: final(self)@.volume },
            ),
            command is Some <==> old(self)@.has_pipeline,
    {
        proof {
            use_type_invariant(&*self);
        }
        self.last_interaction = now;
        self.controls_visible = true;
        if self.volume == 0 {
            self.volume =
            if self.prev_volume < LEAST_VOLUME {
                LEAST_VOLUME
            } else {
                self.prev_volume
            };
        } else {
            self.prev_volume = self.volume;
            self.volume = 0;
        }
        self.command(Command::SetVolume { percent: self.volume })
    }

    /// Plays at `speed` from now on. `position` is where the pipeline says it
    /// is; if it does not say, it is not asked to change its speed.
    pub fn choose_speed(&mut self, speed: Speed, position: Option<u64>, now: u128) -> (command:
        Option<Command>)
        ensures
            final(self)@ == old(self)@.speed_chosen(speed, now),
            command == match position {
                Some(p) => old(self)@.to_pipeline(Command::SeekAtSpeed { speed, position: p }),
                None => None,
            },
            command == old(self)@.speed_command(speed, position),
    {
        proof {
            use_type_invariant(&*self);
        }
        self.speed = speed;
        self.last_interaction = now;
        match position {
            Some(p) => self.command(Command::SeekAtSpeed { speed, position: p }),
            None => None,
        }
    }

    /// Jumps to where the seek bar was pressed. The pipeline takes times of 64
    /// bits: of a later `target` the lower 64 bits count. They must name a
    /// time.
    pub fn press_seek_bar(&mut self, target: u128, now: u128) -> (command: Option<Command>)
        requires
            old(self)@.has_pipeline ==> pipeline_time(target) <= LAST_TIME,
        ensures
            final(self)@ == (ViewModel { last_interaction: now, ..old(self)@ }),
            command == old(self)@.to_pipeline(Command::Seek { position: pipeline_time(target) }),
            final(self)@ == old(self)@.seek_bar_pressed(now),
            command == old(self)@.seek_bar_command(target),
            old(self)@.has_pipeline && target <= u64::MAX ==> command == Some(
                Command::Seek { position: target as u64 },
            ),
    {
        proof {
            use_type_invariant(&*self);
            assert(target as u64 == target % 0x1_0000_0000_0000_0000u128) by (bit_vector);
        }
        self.last_interaction = now;
        self.command(
            Command::Seek {
                position: #[verifier::truncate]
                (target as u64),
            },
        )
    }

    /// The pointer moved over the pane.
    pub fn mouse_moved(&mut self, now: u128)
        ensures
            final(self)@ == old(self)@.touched(now),
    {
        proof {
            use_type_invariant(&*self);
        }
        self.controls_visible = true;
        self.last_interaction = now;
    }

    /// The pane was pressed: the video pauses, or goes on.
    pub fn mouse_pressed(&mut self, now: u128) -> (command: Option<Command>)
        ensures
            final(self)@ == old(self)@.play_pause_toggled(now),
            command == old(self)@.to_pipeline(
                Command::SetState(old(self)@.playback.flipped().pipeline_state()),
            ),
            command == old(self)@.play_pause_command(),
            final(self)@.playback != old(self)@.playback,
    {
        self.toggle_play_pause(now)
    }

    /// Lets the pipeline go when the pane is closed.
    pub fn close(&mut self) -> (command: Option<Command>)
        ensures
            final(self)@ == (ViewModel { has_pipeline: false, ..old(self)@ }),
            command == old(self)@.to_pipeline(Command::SetState(PipelineState::Null)),
            final(self)@ == old(self)@.closed(),
            command == old(self)@.close_command(),
    {
        proof {
            use_type_invariant(&*self);
        }
        let command = self.command(Command::SetState(PipelineState::Null));
        self.has_pipeline = false;
        command
    }

    /// Whether the pane has to be painted again soon: the video plays, or a
    /// frame waits.
    pub fn needs_animation_frame(&self, frame_ready: bool) -> (needed: bool)
        ensures
            needed == (self@.playback == PlaybackState::Playing || frame_ready),
            needed == self@.wants_frame(frame_ready),
    {
        self.playback == PlaybackState::Playing || frame_ready
    }

    /// What fills the pane: a text while the video loads, what went wrong, or
    /// the video.
    pub fn render_content(&self) -> (content: Content)
        ensures
            match content {
                Content::Loading { text } => self@.loading && text@ == "Loading video..."@,
                Content::Failed { message, button } => {
                    &&& !self@.loading
                    &&& self@.error == Some(message@)
                    &&& button@ == "Retry"@
                },
                Content::Video => !self@.loading && self@.error is None,
            },
            content is Loading <==> self@.loading,
            self@.error is Some ==> content is Failed,
            self@.wf(),
    {
        proof {
            use_type_invariant(self);
        }
        if self.loading {
            Content::Loading { text: "Loading video..." }
        } else {
            match &self.error {
                Some(error) => Content::Failed { message: error.clone(), button: "Retry" },
                None => Content::Video,
            }
        }
    }

    /// The buttons that choose a speed; the one of the current speed is marked.
    fn speed_buttons(&self) -> (buttons: Vec<SpeedButton>)
        ensures
            are_speed_buttons(buttons@, self@.speed),
    {
        let mut buttons: Vec<SpeedButton> = Vec::new();
        buttons.push(self.speed_button(Speed::Half));
        buttons.push(self.speed_button(Speed::Normal));
        buttons.push(self.speed_button(Speed::OneAndAHalf));
        buttons.push(self.speed_button(Speed::Double));
        buttons
    }

    fn speed_button(&self, speed: Speed) -> (button: SpeedButton)
        ensures
            button.speed == speed,
            button.label@ == speed.label_text(),
            button.active == (speed == self@.speed),
    {
        SpeedButton { speed, label: speed.label(), active: speed == self.speed }
    }

    /// The overlay with the controls, if it is on the screen: not while the
    /// video loads, not when something is wrong, and not when the controls are
    /// hidden.
    pub fn render_controls(&self) -> (controls: Option<Controls>)
        ensures
            controls is Some <==> self@.shows_controls(),
            controls matches Some(c) ==> {
                &&& c.play_icon@ == if self@.playback == PlaybackState::Playing {
                    "⏸"@
                } else {
                    "▶"@
                }
                &&& c.mute_icon@ == if self@.volume == 0 {
                    "🔇"@
                } else {
                    "🔊"@
                }
                &&& c.bar_filled == self@.bar_filled()
                &&& c.bar_length == self@.bar_length()
                &&& c.time_text@ == self@.time_text()
                &&& c.play_icon@ == self@.play_icon_text()
                &&& c.mute_icon@ == self@.mute_icon_text()
                &&& c.bar_length >= 1_000_000_000 && c.bar_length >= self@.duration
                &&& self@.position <= c.bar_length ==> c.bar_filled == self@.position
                &&& self@.position > c.bar_length ==> c.bar_filled == c.bar_length
                &&& are_speed_buttons(c.speeds@, self@.speed)
            },
    {
        if !self.controls_visible || self.error.is_some() || self.loading {
            return None;
        }
        let play_icon = if self.playback == PlaybackState::Playing {
            "⏸"
        } else {
            "▶"
        };
        let mute_icon = if self.volume == 0 {
            "🔇"
        } else {
            "🔊"
        };
        let bar_length: u64 = if self.duration < NANOS_PER_SEC {
            NANOS_PER_SEC
        } else {
            self.duration
        };
        let bar_filled: u64 = if self.position < bar_length {
            self.position
        } else {
            bar_length
        };
        let time_text = format_time(self.position as u128).concat(" / ").concat(
            format_time(self.duration as u128).as_str(),
        );
        Some(
            Controls {
                play_icon,
                mute_icon,
                bar_filled,
                bar_length,
                time_text,
                speeds: self.speed_buttons(),
            },
        )
    }

    /// The title of the tab of the pane: the name of the file, or `video` if
    /// its path names none.
    pub fn tab_content_text(&self) -> (title: String)
        ensures
            is_title_for(title@, self@.path),
            is_portable(self@.path) ==> title@ == title_text(self@.path),
    {
        tab_title(self.path.as_str())
    }

    /// What to write down so that the pane can be opened again. Nothing is
    /// written in a workspace that is not kept itself.
    pub fn serialize(&self, item_id: u64, workspace_id: Option<i64>) -> (request: Option<
        SaveRequest,
    >)
        ensures
            request is Some <==> workspace_id is Some,
            request matches Some(r) ==> {
                &&& r.item_id == item_id
                &&& workspace_id == Some(r.workspace_id)
                &&& r.path@ == self@.path
                &&& r.position == self@.position
                &&& is_record_of(r, self@)
            },
    {
        match workspace_id {
            Some(workspace_id) => Some(
                SaveRequest {
                    item_id,
                    workspace_id,
                    path: self.path.clone(),
                    position: self.position,
                },
            ),
            None => None,
        }
    }

    /// The name under which panes of this kind are written down.
    pub fn serialized_item_kind() -> (kind: &'static str)
        ensures
            kind@ == "VideoView"@,
    {
        "VideoView"
    }

    /// No event makes it necessary to write the pane down again.
    pub fn should_serialize(&self) -> (should: bool)
        ensures
            !should,
    {
        false
    }

    /// A pane can be shown twice, side by side.
    pub fn can_split(&self) -> (can: bool)
        ensures
            can,
    {
        true
    }

    /// The file that is shown.
    pub fn path(&self) -> (path: &str)
        ensures
            path@ == self@.path,
    {
        self.path.as_str()
    }

    /// Where the video was left the last time it was open, until playback goes
    /// on from there.
    pub fn saved_position(&self) -> (position: Option<u128>)
        ensures
            position == self@.saved_position,
    {
        self.saved_position
    }
}

/// The record says which file the pane shows and where it stands.
pub open spec fn is_record_of(record: SaveRequest, pane: ViewModel) -> bool {
    record.path@ == pane.path && record.position == pane.position
}

/// The time that the media pipeline makes of a time of 128 bits: its lower 64
/// bits.
pub open spec fn pipeline_time(target: u128) -> u64 {
    (target % 0x1_0000_0000_0000_0000) as u64
}

/// There is a button for each speed on offer, in order, with its label, and
/// exactly the one of the speed `current` is marked.
pub open spec fn are_speed_buttons(buttons: Seq<SpeedButton>, current: Speed) -> bool {
    &&& buttons.len() == offered_speeds().len()
    &&& forall|i: int|
        #![trigger buttons[i]]
        0 <= i < buttons.len() ==> {
            &&& buttons[i].speed == offered_speeds()[i]
            &&& buttons[i].label@ == offered_speeds()[i].label_text()
            &&& buttons[i].active == (offered_speeds()[i] == current)
        }
}

} // verus!
