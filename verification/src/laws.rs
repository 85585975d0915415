//! What holds of a pane over several reactions.

use vstd::prelude::*;

use crate::playback::{BusEvent, Command, offered_speeds, PipelineState, PlaybackState, Speed};
use crate::item::ProjectPath;
use crate::restore::{pane_opens_again, restored, Restore, RestoreError};
use crate::start::StartError;
use crate::paths::begins_with;
use crate::text::{clock_text, clock_text_shows_its_time, NANOS_PER_SEC, shows_time};
use crate::view::{
    are_speed_buttons, CONTROLS_TIMEOUT, is_record_of, LAST_TIME, LEAST_VOLUME, pipeline_time,
    SaveRequest, SEEK_STEP, SpeedButton, ViewModel,
};

verus! {

/// A pane is well formed when it is opened, and every reaction leaves it so.
pub proof fn panes_stay_well_formed(
    pane: ViewModel,
    path: Seq<char>,
    saved_position: Option<u128>,
    speed: Speed,
    position: Option<u64>,
    duration: Option<u64>,
    result: Result<(), StartError>,
    event: BusEvent,
    now: u128,
)
    requires
        pane.wf(),
        position matches Some(p) ==> p <= LAST_TIME,
        duration matches Some(d) ==> d <= LAST_TIME,
    ensures
        ViewModel::opened(path, saved_position, now).wf(),
        pane.touched(now).wf(),
        pane.play_pause_toggled(now).wf(),
        pane.mute_toggled(now).wf(),
        pane.speed_chosen(speed, now).wf(),
        pane.ticked(position, duration, now).wf(),
        pane.start_finished(result).wf(),
        pane.retried().wf(),
        pane.after_event(event).wf(),
{
}

/// Whatever happens to a pane.
pub enum Reaction {
    Touch { now: u128 },
    PlayPause { now: u128 },
    Mute { now: u128 },
    ChooseSpeed { speed: Speed, now: u128 },
    PressSeekBar { now: u128 },
    Tick { position: Option<u64>, duration: Option<u64>, now: u128 },
    FinishStart(Result<(), StartError>),
    Retry,
    Event(BusEvent),
    Close,
}

/// The pane after one reaction.
pub open spec fn reacted(pane: ViewModel, reaction: Reaction) -> ViewModel {
    match reaction {
        Reaction::Touch { now } => pane.touched(now),
        Reaction::PlayPause { now } => pane.play_pause_toggled(now),
        Reaction::Mute { now } => pane.mute_toggled(now),
        Reaction::ChooseSpeed { speed, now } => pane.speed_chosen(speed, now),
        Reaction::PressSeekBar { now } => pane.seek_bar_pressed(now),
        Reaction::Tick { position, duration, now } => pane.ticked(position, duration, now),
        Reaction::FinishStart(result) => pane.start_finished(result),
        Reaction::Retry => pane.retried(),
        Reaction::Event(event) => pane.after_event(event),
        Reaction::Close => pane.closed(),
    }
}

/// The pane after any number of reactions.
pub open spec fn after_all(pane: ViewModel, reactions: Seq<Reaction>) -> ViewModel
    decreases reactions.len(),
{
    if reactions.len() == 0 {
        pane
    } else {
        reacted(after_all(pane, reactions.drop_last()), reactions.last())
    }
}

/// Where playback is asked to go on from in one reaction, if it is.
pub open spec fn resumed_at(pane: ViewModel, reaction: Reaction) -> Option<u64> {
    match reaction {
        Reaction::Event(event) => pane.resume_target(event),
        _ => None,
    }
}

/// All the places from which playback is asked to go on, in order, over any
/// number of reactions.
pub open spec fn resume_targets(pane: ViewModel, reactions: Seq<Reaction>) -> Seq<u64>
    decreases reactions.len(),
{
    if reactions.len() == 0 {
        Seq::empty()
    } else {
        let before = reactions.drop_last();
        match resumed_at(after_all(pane, before), reactions.last()) {
            Some(target) => resume_targets(pane, before).push(target),
            None => resume_targets(pane, before),
        }
    }
}

/// No reaction changes which file a pane shows. Where the video was left is
/// kept until the pane is ready to go on from there, and then forgotten.
pub proof fn panes_keep_their_file(pane: ViewModel, reaction: Reaction)
    ensures
        reacted(pane, reaction).path == pane.path,
        reacted(pane, reaction).saved_position == if reaction is Event && pane.becomes_ready(
            reaction->Event_0,
        ) {
            None
        } else {
            pane.saved_position
        },
{
}

/// Whatever happens to a pane that was left at `x`: playback is asked to go on
/// from `x` once or not at all, and from nowhere else. As long as it was not
/// asked, the pane still knows `x`.
pub proof fn playback_resumes_at_most_once(pane: ViewModel, x: u64, reactions: Seq<Reaction>)
    requires
        pane.saved_position == Some(x as u128),
        x <= LAST_TIME,
    ensures
        ({
            ||| resume_targets(pane, reactions) == Seq::<u64>::empty() && after_all(
                pane,
                reactions,
            ).saved_position == Some(x as u128)
            ||| resume_targets(pane, reactions) == seq![x] && after_all(
                pane,
                reactions,
            ).saved_position is None
        }),
    decreases reactions.len(),
{
    if reactions.len() > 0 {
        let before = reactions.drop_last();
        playback_resumes_at_most_once(pane, x, before);
        panes_keep_their_file(after_all(pane, before), reactions.last());
        assert(Seq::<u64>::empty().push(x) =~= seq![x]);
    }
}

/// A pane that was left at `x` asks for a seek to `x` exactly once: with the
/// event that ends its loading, whatever happened before and whatever happens
/// after.
pub proof fn playback_resumes_where_it_was_left(
    pane: ViewModel,
    x: u64,
    before: Seq<Reaction>,
    event: BusEvent,
    after: Seq<Reaction>,
)
    requires
        pane.saved_position == Some(x as u128),
        x <= LAST_TIME,
        resume_targets(pane, before) == Seq::<u64>::empty(),
        after_all(pane, before).becomes_ready(event),
    ensures
        after_all(pane, before).event_command(event) == Some(Command::Seek { position: x }),
        resume_targets(pane, before.push(Reaction::Event(event)) + after) == seq![x],
{
    let until = before.push(Reaction::Event(event));
    playback_resumes_at_most_once(pane, x, before);
    assert(until.drop_last() =~= before);
    assert(Seq::<u64>::empty().push(x) =~= seq![x]);
    assert(resume_targets(pane, until) == seq![x]);
    targets_only_grow(pane, until, after);
    playback_resumes_at_most_once(pane, x, until + after);
}

/// A pane opened where it was left at `x`, whose pipeline starts, goes on from
/// `x` as soon as the pipeline is ready, and shows the video.
pub proof fn opened_pane_resumes(path: Seq<char>, x: u64, now: u128, after: Seq<Reaction>)
    requires
        x <= LAST_TIME,
    ensures
        ({
            let pane = ViewModel::opened(path, Some(x as u128), now);
            let ready = pane.start_finished(Ok(()));
            &&& ready.event_command(BusEvent::AsyncDone) == Some(Command::Seek { position: x })
            &&& !ready.after_event(BusEvent::AsyncDone).loading
            &&& ready.after_event(BusEvent::AsyncDone).error is None
            &&& resume_targets(
                pane,
                seq![Reaction::FinishStart(Ok(())), Reaction::Event(BusEvent::AsyncDone)] + after,
            ) == seq![x]
        }),
{
    let pane = ViewModel::opened(path, Some(x as u128), now);
    let start = Reaction::FinishStart(Ok(()));
    let before = seq![start];
    assert(before.drop_last() =~= Seq::<Reaction>::empty());
    assert(after_all(pane, before.drop_last()) == pane);
    assert(resume_targets(pane, before.drop_last()) == Seq::<u64>::empty());
    assert(before.last() == start);
    assert(after_all(pane, before) == pane.start_finished(Ok(())));
    playback_resumes_where_it_was_left(pane, x, before, BusEvent::AsyncDone, after);
    assert(before.push(Reaction::Event(BusEvent::AsyncDone)) =~= seq![
        start,
        Reaction::Event(BusEvent::AsyncDone),
    ]);
}

/// A pane that was written down at `x` opens again on the same file and goes on
/// from `x`: if the database gives back what was written down, and the file
/// still opens as a video.
pub proof fn saved_pane_resumes(
    pane: ViewModel,
    path: String,
    place: ProjectPath,
    now: u128,
    after: Seq<Reaction>,
)
    requires
        pane.wf(),
        path@ == pane.path,
    ensures
        restored(
            Ok(Some(path)),
            Ok(Some(pane.position as u128)),
            Some(place),
            true,
            true,
        ) == Ok::<Restore, RestoreError>(Restore::OpenPane { saved: Some(pane.position as u128) }),
        resume_targets(
            ViewModel::opened(path@, Some(pane.position as u128), now),
            seq![Reaction::FinishStart(Ok(())), Reaction::Event(BusEvent::AsyncDone)] + after,
        ) == seq![pane.position],
        after_all(
            ViewModel::opened(path@, Some(pane.position as u128), now),
            seq![Reaction::FinishStart(Ok(())), Reaction::Event(BusEvent::AsyncDone)] + after,
        ).path == pane.path,
{
    pane_opens_again(Ok(Some(path)), Ok(Some(pane.position as u128)), Some(place), true, true);
    opened_pane_resumes(path@, pane.position, now, after);
    file_is_kept(
        ViewModel::opened(path@, Some(pane.position as u128), now),
        seq![Reaction::FinishStart(Ok(())), Reaction::Event(BusEvent::AsyncDone)] + after,
    );
}

/// What is written down of a pane names its file and its place, and is all that
/// it takes: a pane that is opened from it goes on where the first one stood.
pub proof fn records_bring_panes_back(
    record: SaveRequest,
    pane: ViewModel,
    place: ProjectPath,
    now: u128,
    after: Seq<Reaction>,
)
    requires
        pane.wf(),
        is_record_of(record, pane),
    ensures
        record.path@ == pane.path,
        record.position == pane.position,
        restored(
            Ok(Some(record.path)),
            Ok(Some(record.position as u128)),
            Some(place),
            true,
            true,
        ) == Ok::<Restore, RestoreError>(Restore::OpenPane { saved: Some(pane.position as u128) }),
        resume_targets(
            ViewModel::opened(record.path@, Some(record.position as u128), now),
            seq![Reaction::FinishStart(Ok(())), Reaction::Event(BusEvent::AsyncDone)] + after,
        ) == seq![pane.position],
{
    saved_pane_resumes(pane, record.path, place, now, after);
}

/// However often a pane reacts, it shows the same file.
pub proof fn file_is_kept(pane: ViewModel, reactions: Seq<Reaction>)
    ensures
        after_all(pane, reactions).path == pane.path,
    decreases reactions.len(),
{
    if reactions.len() > 0 {
        file_is_kept(pane, reactions.drop_last());
        panes_keep_their_file(after_all(pane, reactions.drop_last()), reactions.last());
    }
}

proof fn targets_only_grow(pane: ViewModel, first: Seq<Reaction>, then: Seq<Reaction>)
    ensures
        resume_targets(pane, first).len() <= resume_targets(pane, first + then).len(),
    decreases then.len(),
{
    if then.len() == 0 {
        assert(first + then =~= first);
    } else {
        targets_only_grow(pane, first, then.drop_last());
        assert((first + then).drop_last() =~= first + then.drop_last());
    }
}

/// A pane that was just opened plays, is muted and loads; it has no pipeline
/// yet, so nothing can be asked of one.
pub proof fn panes_open_muted(
    path: Seq<char>,
    saved_position: Option<u128>,
    now: u128,
    command: Command,
)
    ensures
        ViewModel::opened(path, saved_position, now).volume == 0,
        ViewModel::opened(path, saved_position, now).playback == PlaybackState::Playing,
        ViewModel::opened(path, saved_position, now).loading,
        !ViewModel::opened(path, saved_position, now).shows_controls(),
        ViewModel::opened(path, saved_position, now).to_pipeline(command) is None,
{
}

/// Pausing and going on cancel out: nothing is left of the two but that the
/// user did something.
pub proof fn play_pause_twice_is_a_touch(pane: ViewModel, first: u128, second: u128)
    ensures
        pane.play_pause_toggled(first).play_pause_toggled(second) == pane.touched(second),
{
}

/// Muting and unmuting cancel out: the volume is what it was, and nothing else
/// changes but the volume that is kept for unmuting.
pub proof fn mute_twice_keeps_the_volume(pane: ViewModel, first: u128, second: u128)
    requires
        pane.wf(),
    ensures
        pane.mute_toggled(first).mute_toggled(second).volume == pane.volume,
        pane.mute_toggled(first).mute_toggled(second) == (ViewModel {
            prev_volume: pane.mute_toggled(first).mute_toggled(second).prev_volume,
            ..pane.touched(second)
        }),
        pane.volume == 0 ==> pane.mute_toggled(first).mute_toggled(second) == pane.touched(second),
{
}

/// The mute button always makes a difference: it silences a pane that can be
/// heard, and makes a muted one heard, at a tenth of the full volume or more.
pub proof fn mute_toggles_audibility(pane: ViewModel, now: u128)
    ensures
        pane.volume == 0 ==> pane.mute_toggled(now).volume >= LEAST_VOLUME,
        pane.volume != 0 ==> pane.mute_toggled(now).volume == 0,
{
}

/// A jump stays inside the video. Forward it does not pass the end, and does
/// not go back unless the pane already stands behind the end; backward it
/// never goes on. Either way it leads to a time that the pipeline can name, by
/// no more than one step.
pub proof fn jumps_stay_inside(pane: ViewModel)
    requires
        pane.wf(),
    ensures
        pane.forward_target() <= pane.duration,
        pane.position <= pane.duration ==> pane.position <= pane.forward_target(),
        pane.forward_target() <= pane.position + SEEK_STEP,
        pane.backward_target() <= pane.position,
        pane.position <= pane.backward_target() + SEEK_STEP,
        pane.forward_target() <= LAST_TIME,
        pane.backward_target() <= LAST_TIME,
{
}

/// Away from the ends of the video, a jump back undoes a jump forward, and a
/// jump forward undoes a jump back, once the pipeline has arrived.
pub proof fn jumps_undo_each_other(pane: ViewModel)
    requires
        pane.wf(),
        pane.has_pipeline,
    ensures
        pane.position + SEEK_STEP <= pane.duration ==> pane.observed(
            Some(pane.forward_target()),
            None,
        ).backward_target() == pane.position,
        SEEK_STEP <= pane.position <= pane.duration ==> pane.observed(
            Some(pane.backward_target()),
            None,
        ).forward_target() == pane.position,
{
}

/// Whatever the pipeline says, time alone never brings the controls up; it
/// hides them only while the video plays, and not within three seconds of the
/// last interaction. After that they are gone.
pub proof fn controls_hide_when_left_alone(
    pane: ViewModel,
    position: Option<u64>,
    duration: Option<u64>,
    now: u128,
)
    ensures
        pane.ticked(position, duration, now).controls_visible ==> pane.controls_visible,
        pane.playback == PlaybackState::Paused ==> pane.ticked(
            position,
            duration,
            now,
        ).controls_visible == pane.controls_visible,
        now <= pane.last_interaction + CONTROLS_TIMEOUT ==> pane.ticked(
            position,
            duration,
            now,
        ).controls_visible == pane.controls_visible,
        now > pane.last_interaction + CONTROLS_TIMEOUT && pane.playback == PlaybackState::Playing
            ==> !pane.ticked(position, duration, now).controls_visible,
{
}

/// What the user does brings the controls up, and they stay up for three
/// seconds, unless the video loads or something is wrong.
pub proof fn touch_brings_controls_up(
    pane: ViewModel,
    position: Option<u64>,
    duration: Option<u64>,
    touched: u128,
    now: u128,
)
    requires
        now <= touched + CONTROLS_TIMEOUT,
        pane.error is None,
        !pane.loading,
    ensures
        pane.touched(touched).ticked(position, duration, now).shows_controls(),
        pane.play_pause_toggled(touched).ticked(position, duration, now).shows_controls(),
        pane.mute_toggled(touched).ticked(position, duration, now).shows_controls(),
{
}

/// The controls are on the screen exactly if they are not hidden, the pane does
/// not load and nothing is wrong.
pub proof fn controls_need_a_video(pane: ViewModel)
    ensures
        pane.shows_controls() <==> pane.controls_visible && !pane.loading && pane.error is None,
{
}

/// The position and the length of a pane are what the pipeline said last;
/// a length that was once known is never forgotten.
pub proof fn observed_times_are_kept(
    pane: ViewModel,
    position: Option<u64>,
    duration: Option<u64>,
    now: u128,
)
    ensures
        !pane.has_pipeline ==> pane.ticked(position, duration, now).position == pane.position
            && pane.ticked(position, duration, now).duration == pane.duration,
        pane.has_pipeline && position is Some ==> pane.ticked(position, duration, now).position
            == position->0,
        position is None ==> pane.ticked(position, duration, now).position == pane.position,
        pane.duration > 0 ==> pane.ticked(position, duration, now).duration > 0,
{
}

/// When something is wrong the pane says so: it does not load, and the
/// controls make way.
pub proof fn errors_are_shown(pane: ViewModel)
    requires
        pane.wf(),
        pane.error is Some,
    ensures
        !pane.loading,
        !pane.shows_controls(),
{
}

/// Another try after a failed start leads back to before the start.
pub proof fn retry_undoes_a_failed_start(pane: ViewModel, error: StartError)
    requires
        pane.loading,
        pane.error is None,
        !pane.has_pipeline,
    ensures
        pane.start_finished(Err(error)).error is Some,
        pane.start_finished(Err(error)).retried() == pane,
{
}

/// A pane whose pipeline started goes on loading until the pipeline is ready,
/// and then shows the video.
pub proof fn loading_ends_when_ready(pane: ViewModel)
    requires
        pane.loading,
        pane.error is None,
    ensures
        pane.start_finished(Ok(())).loading,
        !pane.start_finished(Ok(())).after_event(BusEvent::AsyncDone).loading,
        pane.start_finished(Ok(())).after_event(BusEvent::AsyncDone).error is None,
{
}

/// A video starts over at its end: the pipeline goes back to the start and
/// plays. Every other event is left to the pane, and only an error or the end
/// of a start or a seek changes that.
pub proof fn videos_loop(pane: ViewModel, event: BusEvent)
    ensures
        !(event is Error || event is AsyncDone) ==> pane.after_event(event) == pane,
        event is EndOfStream ==> pane.event_command(event) is None,
        event is EndOfStream ==> event.answer_commands() == seq![
            Command::Seek { position: 0 },
            Command::SetState(PipelineState::Playing),
        ],
        !(event is EndOfStream) ==> event.answer_commands() == Seq::<Command>::empty(),
{
}

/// The seek bar is as long as the video, but at least a second. It is filled
/// up to the position, whatever that is, and to its end if the position is
/// beyond that.
pub proof fn seek_bar_is_a_fraction(pane: ViewModel)
    ensures
        pane.bar_length() >= NANOS_PER_SEC,
        pane.bar_length() >= pane.duration,
        pane.bar_filled() <= pane.bar_length(),
        pane.bar_filled() == pane.bar_length() <==> pane.position >= pane.bar_length(),
        pane.position <= pane.bar_length() ==> pane.bar_filled() == pane.position,
        pane.duration >= 1_000_000_000 ==> pane.bar_length() == pane.duration,
        pane.duration < 1_000_000_000 ==> pane.bar_length() == 1_000_000_000,
{
}

/// The seek bar is filled further at a later position, by just as much as lies
/// between the two, as long as both are within the video.
pub proof fn seek_bar_follows_the_position(a: ViewModel, b: ViewModel)
    requires
        a.duration == b.duration,
        a.position <= b.position,
    ensures
        a.bar_length() == b.bar_length(),
        a.bar_filled() <= b.bar_filled(),
        b.position <= b.duration ==> b.bar_filled() - a.bar_filled() == b.position - a.position,
        a.position < b.position && b.position <= b.duration ==> a.bar_filled() < b.bar_filled(),
{
}

/// There is a button for each of the four speeds, in order and with its label,
/// and at any time exactly the one of the current speed is marked.
pub proof fn one_speed_is_active(buttons: Seq<SpeedButton>, current: Speed)
    requires
        are_speed_buttons(buttons, current),
    ensures
        exists|i: int| 0 <= i < buttons.len() && (#[trigger] buttons[i]).active,
        forall|i: int, j: int|
            0 <= i < buttons.len() && 0 <= j < buttons.len() && (#[trigger] buttons[i]).active && (
            #[trigger] buttons[j]).active ==> i == j,
        forall|i: int|
            0 <= i < buttons.len() ==> ((#[trigger] buttons[i]).active <==> buttons[i].speed
                == current),
        buttons.len() == 4,
        forall|i: int|
            0 <= i < 4 ==> (#[trigger] buttons[i]).speed.as_percent() == 50 * (i + 1)
                && buttons[i].label@ == buttons[i].speed.label_text(),
{
    let s = offered_speeds();
    assert(s[0] == Speed::Half && s[1] == Speed::Normal && s[2] == Speed::OneAndAHalf && s[3]
        == Speed::Double);
    let i: int = match current {
        Speed::Half => 0,
        Speed::Normal => 1,
        Speed::OneAndAHalf => 2,
        Speed::Double => 3,
    };
    assert(buttons[i].active);
}

/// A pane that was just opened stands at the start of the file it was opened
/// on, plays it at the normal speed, muted, with the full volume to come back
/// to, loads, and shows its controls as soon as it can.
pub proof fn opened_panes_start_afresh(path: Seq<char>, saved_position: Option<u128>, now: u128)
    ensures
        ({
            let pane = ViewModel::opened(path, saved_position, now);
            &&& pane.path == path
            &&& !pane.has_pipeline
            &&& pane.playback == PlaybackState::Playing
            &&& pane.position == 0
            &&& pane.duration == 0
            &&& pane.volume == 0
            &&& pane.prev_volume == 100
            &&& pane.speed == Speed::Normal
            &&& pane.loading
            &&& pane.error is None
            &&& pane.controls_visible
            &&& pane.last_interaction == now
            &&& pane.saved_position == saved_position
        }),
{
}

/// A command reaches the pipeline as it is, exactly if there is one.
pub proof fn commands_reach_the_pipeline(pane: ViewModel, command: Command)
    ensures
        pane.has_pipeline ==> pane.to_pipeline(command) == Some(command),
        !pane.has_pipeline ==> pane.to_pipeline(command) is None,
{
}

/// When the user does something, the controls come up and the time is kept;
/// nothing else changes.
pub proof fn touches_change_the_controls_only(pane: ViewModel, now: u128)
    ensures
        pane.touched(now).controls_visible,
        pane.touched(now).last_interaction == now,
        pane.touched(now) == (ViewModel {
            controls_visible: pane.touched(now).controls_visible,
            last_interaction: pane.touched(now).last_interaction,
            ..pane
        }),
{
}

/// Pausing changes what the pane does into the other thing, tells the pipeline
/// the same, and is a touch besides.
pub proof fn play_pause_tells_the_pipeline(pane: ViewModel, now: u128)
    ensures
        pane.playback == PlaybackState::Playing ==> pane.play_pause_toggled(now).playback
            == PlaybackState::Paused,
        pane.playback == PlaybackState::Paused ==> pane.play_pause_toggled(now).playback
            == PlaybackState::Playing,
        pane.play_pause_toggled(now) == (ViewModel {
            playback: pane.play_pause_toggled(now).playback,
            controls_visible: true,
            last_interaction: now,
            ..pane
        }),
        pane.has_pipeline && pane.play_pause_toggled(now).playback == PlaybackState::Playing
            ==> pane.play_pause_command() == Some(Command::SetState(PipelineState::Playing)),
        pane.has_pipeline && pane.play_pause_toggled(now).playback == PlaybackState::Paused
            ==> pane.play_pause_command() == Some(Command::SetState(PipelineState::Paused)),
        !pane.has_pipeline ==> pane.play_pause_command() is None,
{
}

/// A jump goes exactly five seconds, in whatever state the pane is, unless an
/// end of the video is nearer: then it goes to that end.
pub proof fn jumps_go_five_seconds(pane: ViewModel)
    ensures
        pane.position + 5_000_000_000 <= pane.duration ==> pane.forward_target() - pane.position
            == 5_000_000_000,
        pane.position + 5_000_000_000 > pane.duration ==> pane.forward_target() == pane.duration,
        pane.position >= 5_000_000_000 ==> pane.position - pane.backward_target()
            == 5_000_000_000,
        pane.position < 5_000_000_000 ==> pane.backward_target() == 0,
{
}

/// A jump asks the pipeline for a seek to its target.
pub proof fn jumps_are_seeks(pane: ViewModel)
    ensures
        pane.has_pipeline && pane.position + 5_000_000_000 <= pane.duration
            ==> pane.forward_command() == Some(
            Command::Seek { position: (pane.position + 5_000_000_000) as u64 },
        ),
        pane.has_pipeline && pane.position + 5_000_000_000 > pane.duration
            ==> pane.forward_command() == Some(Command::Seek { position: pane.duration }),
        pane.has_pipeline && pane.position >= 5_000_000_000 ==> pane.backward_command() == Some(
            Command::Seek { position: (pane.position - 5_000_000_000) as u64 },
        ),
        pane.has_pipeline && pane.position < 5_000_000_000 ==> pane.backward_command() == Some(
            Command::Seek { position: 0 },
        ),
        !pane.has_pipeline ==> pane.forward_command() is None && pane.backward_command() is None,
{
}

/// Where a jump leads depends on the position and the length of the video
/// alone.
pub proof fn jumps_depend_on_the_place_alone(a: ViewModel, b: ViewModel)
    requires
        a.position == b.position,
        a.duration == b.duration,
    ensures
        a.forward_target() == b.forward_target(),
        a.backward_target() == b.backward_target(),
{
}

/// Muting keeps the volume for later and sets it to zero; unmuting takes it up
/// again, or a tenth of the full one if it was less. The pipeline is told the
/// new volume, and nothing else changes but for the touch.
pub proof fn mute_keeps_the_volume_for_later(pane: ViewModel, now: u128)
    ensures
        pane.volume > 0 ==> pane.mute_toggled(now).volume == 0 && pane.mute_toggled(
            now,
        ).prev_volume == pane.volume,
        pane.volume == 0 && pane.prev_volume >= 10 ==> pane.mute_toggled(now).volume
            == pane.prev_volume,
        pane.volume == 0 && pane.prev_volume < 10 ==> pane.mute_toggled(now).volume == 10,
        pane.volume == 0 ==> pane.mute_toggled(now).prev_volume == pane.prev_volume,
        pane.mute_toggled(now) == (ViewModel {
            volume: pane.mute_toggled(now).volume,
            prev_volume: pane.mute_toggled(now).prev_volume,
            controls_visible: true,
            last_interaction: now,
            ..pane
        }),
        pane.has_pipeline ==> pane.mute_command(now) == Some(
            Command::SetVolume { percent: pane.mute_toggled(now).volume },
        ),
        !pane.has_pipeline ==> pane.mute_command(now) is None,
{
}

/// Choosing a speed sets it and keeps the time, and nothing else; the pipeline
/// goes on at that speed from where it says it is.
pub proof fn chosen_speeds_apply_at_once(
    pane: ViewModel,
    speed: Speed,
    position: Option<u64>,
    now: u128,
)
    ensures
        pane.speed_chosen(speed, now).speed == speed,
        pane.speed_chosen(speed, now) == (ViewModel { speed, last_interaction: now, ..pane }),
        pane.has_pipeline && position is Some ==> pane.speed_command(speed, position) == Some(
            Command::SeekAtSpeed { speed, position: position->0 },
        ),
        !pane.has_pipeline || position is None ==> pane.speed_command(speed, position) is None,
{
}

/// A press on the seek bar leads exactly to the time it stands for, however
/// late in the video that is; only a time that 64 bits cannot hold loses whole
/// multiples of what they can.
pub proof fn seek_bar_leads_to_its_time(pane: ViewModel, target: u128, now: u128)
    ensures
        target <= 0xffff_ffff_ffff_ffff ==> pipeline_time(target) as int == target as int,
        exists|k: int| target as int == #[trigger] multiple_of_64_bits(k) + pipeline_time(target),
        pane.has_pipeline && target <= 0xffff_ffff_ffff_ffff ==> pane.seek_bar_command(target)
            == Some(Command::Seek { position: target as u64 }),
        !pane.has_pipeline ==> pane.seek_bar_command(target) is None,
        pane.seek_bar_pressed(now) == (ViewModel { last_interaction: now, ..pane }),
{
    let k = target as int / 0x1_0000_0000_0000_0000;
    assert(target as int == multiple_of_64_bits(k) + pipeline_time(target));
}

/// The number of values that 64 bits have, taken `k` times.
pub open spec fn multiple_of_64_bits(k: int) -> int {
    k * 0x1_0000_0000_0000_0000
}

/// Two presses on different places, both within what 64 bits can hold, lead to
/// different times, and the later place to the later time.
pub proof fn later_presses_lead_further(a: u128, b: u128)
    requires
        a < b,
        b <= 0xffff_ffff_ffff_ffff,
    ensures
        pipeline_time(a) < pipeline_time(b),
        pipeline_time(b) - pipeline_time(a) == b - a,
{
}

/// A tick takes over what the pipeline says of itself, without rounding or
/// limit, and decides on the controls; it changes nothing else. Without a
/// pipeline, what is said of one does not count.
pub proof fn ticks_take_over_the_times(
    pane: ViewModel,
    position: Option<u64>,
    duration: Option<u64>,
    now: u128,
)
    ensures
        ({
            let after = pane.ticked(position, duration, now);
            &&& pane.has_pipeline && position is Some ==> after.position == position->0
            &&& !pane.has_pipeline || position is None ==> after.position == pane.position
            &&& pane.has_pipeline && duration is Some && duration->0 > 0 ==> after.duration
                == duration->0
            &&& !pane.has_pipeline || duration is None || duration->0 == 0 ==> after.duration
                == pane.duration
            &&& after.controls_visible == (pane.controls_visible && !(pane.playback
                == PlaybackState::Playing && now > pane.last_interaction + 3_000_000_000))
            &&& after == (ViewModel {
                position: after.position,
                duration: after.duration,
                controls_visible: after.controls_visible,
                ..pane
            })
        }),
{
}

/// A pipeline that started is there, and nothing else changes; one that did
/// not leaves its message, in full, behind the words that the start failed,
/// and ends the loading.
pub proof fn starts_end_in_a_pipeline_or_a_message(pane: ViewModel, error: StartError)
    ensures
        pane.start_finished(Ok(())) == (ViewModel { has_pipeline: true, ..pane }),
        !pane.start_finished(Err(error)).loading,
        pane.start_finished(Err(error)).error is Some,
        begins_with(pane.start_finished(Err(error)).error->0, "Failed to start video: "@),
        pane.start_finished(Err(error)).error->0.skip(23) == error.message_text(),
        pane.start_finished(Err(error)) == (ViewModel {
            loading: false,
            error: pane.start_finished(Err(error)).error,
            ..pane
        }),
{
    reveal_strlit("Failed to start video: ");
    let text = pane.start_finished(Err(error)).error->0;
    assert(text.take("Failed to start video: "@.len() as int) =~= "Failed to start video: "@);
    assert(text.skip(23) =~= error.message_text());
}

/// Another try loads, without a message and without a pipeline; all else stays
/// as the user left it.
pub proof fn retries_keep_the_settings(pane: ViewModel)
    ensures
        pane.retried().loading,
        pane.retried().error is None,
        !pane.retried().has_pipeline,
        pane.retried() == (ViewModel { loading: true, error: None, has_pipeline: false, ..pane }),
{
}

/// A failure of the pipeline is shown with its message, in full, behind the
/// words that playback failed, and ends the loading; nothing else changes.
pub proof fn playback_errors_are_told_in_full(pane: ViewModel, message: String)
    ensures
        ({
            let after = pane.after_event(BusEvent::Error(message));
            &&& !after.loading
            &&& after.error is Some
            &&& begins_with(after.error->0, "Playback error: "@)
            &&& after.error->0.skip(16) == message@
            &&& after == (ViewModel { loading: false, error: after.error, ..pane })
            &&& pane.event_command(BusEvent::Error(message)) is None
        }),
{
    reveal_strlit("Playback error: ");
    let text = pane.after_event(BusEvent::Error(message)).error->0;
    assert(text.take("Playback error: "@.len() as int) =~= "Playback error: "@);
    assert(text.skip(16) =~= message@);
}

/// A pane that loads and has a pipeline goes on from where it was left as soon
/// as the pipeline is ready, whatever its other settings, and forgets that
/// place. At no other time does it ask for such a seek.
pub proof fn ready_panes_resume(pane: ViewModel, x: u128, event: BusEvent)
    ensures
        pane.loading && pane.has_pipeline && pane.saved_position == Some(x) && x
            < 0xffff_ffff_ffff_ffff ==> pane.event_command(BusEvent::AsyncDone) == Some(
            Command::Seek { position: x as u64 },
        ),
        pane.loading && pane.has_pipeline ==> pane.after_event(BusEvent::AsyncDone) == (ViewModel {
            loading: false,
            saved_position: None,
            ..pane
        }),
        !(pane.loading && pane.has_pipeline) ==> pane.after_event(BusEvent::AsyncDone) == (
        ViewModel { loading: false, ..pane }),
        !(event is AsyncDone) || !pane.loading || !pane.has_pipeline || pane.saved_position is None
            ==> pane.event_command(event) is None,
        pane.saved_position == Some(x) && x >= 0xffff_ffff_ffff_ffff ==> pane.event_command(
            event,
        ) is None,
{
}

/// A pane lets its pipeline go when it is closed, and asks for nothing if it
/// has none.
pub proof fn closing_releases_the_pipeline(pane: ViewModel)
    ensures
        pane.has_pipeline ==> pane.close_command() == Some(Command::SetState(PipelineState::Null)),
        !pane.has_pipeline ==> pane.close_command() is None,
        pane.closed() == (ViewModel { has_pipeline: false, ..pane }),
        pane.closed().close_command() is None,
{
}

/// A pane is painted again while it plays and whenever a frame waits, and not
/// otherwise.
pub proof fn panes_are_painted_while_they_play(pane: ViewModel)
    ensures
        pane.wants_frame(true),
        pane.wants_frame(false) <==> pane.playback == PlaybackState::Playing,
{
}

/// The icons show what the buttons would do: pause a video that plays, play
/// one that does not, and whether it can be heard.
pub proof fn icons_follow_the_state(pane: ViewModel)
    ensures
        pane.play_icon_text() == "⏸"@ <==> pane.playback == PlaybackState::Playing,
        pane.play_icon_text() == "▶"@ <==> pane.playback == PlaybackState::Paused,
        pane.mute_icon_text() == "🔇"@ <==> pane.volume == 0,
        pane.mute_icon_text() == "🔊"@ <==> pane.volume != 0,
{
    reveal_strlit("⏸");
    reveal_strlit("▶");
    reveal_strlit("🔇");
    reveal_strlit("🔊");
    assert("⏸"@[0] != "▶"@[0]);
    assert("🔇"@[0] != "🔊"@[0]);
}

/// The text of the times shows the position and the length of the video, each
/// in minutes and seconds, with ` / ` between them.
pub proof fn time_text_shows_both_times(pane: ViewModel)
    ensures
        exists|k: int|
            0 <= k && k + 3 <= pane.time_text().len() && shows_time(
                #[trigger] pane.time_text().take(k),
                pane.position as nat / 1_000_000_000,
            ) && pane.time_text()[k] == ' ' && pane.time_text()[k + 1] == '/'
                && pane.time_text()[k + 2] == ' ' && shows_time(
                pane.time_text().skip(k + 3),
                pane.duration as nat / 1_000_000_000,
            ),
{
    reveal_strlit(" / ");
    let text = pane.time_text();
    let a = clock_text(pane.position as nat / 1_000_000_000);
    let b = clock_text(pane.duration as nat / 1_000_000_000);
    let k = a.len() as int;
    clock_text_shows_its_time(pane.position as nat / 1_000_000_000);
    clock_text_shows_its_time(pane.duration as nat / 1_000_000_000);
    assert(text.take(k) =~= a);
    assert(text.skip(k + 3) =~= b);
}

} // verus!
