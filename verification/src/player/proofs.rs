//! What holds of the player's transport, whatever the tracks.

use crate::player::model::{
    begin_load_effects, restart_effects, spec_clamp_volume, spec_gain, PlayerView,
};
use crate::player::{Effect, MediaEvent, Status, GAIN_PER_PERCENT, MAX_VOLUME};
use crate::rtidalapi::track::{answers, is_answer, law_lookups_run_out, Lookup, Resolution, Track};
use crate::rtidalapi::AudioQuality;
use crate::time::TimeSpan;
use vstd::multiset::Multiset;
use vstd::prelude::*;

verus! {

/// The player after a transport step whose load, if the step asks for one,
/// goes well: the track that was set aside is loaded.
pub open spec fn settle(step: (PlayerView, Seq<Effect>)) -> PlayerView {
    if step.1.contains(Effect::Load) {
        step.0.loaded()
    } else {
        step.0
    }
}

/// The player after `n` skips to the next track, each load going well.
pub open spec fn skip_forward(player: PlayerView, n: nat) -> PlayerView
    decreases n,
{
    if n == 0 {
        player
    } else {
        settle(skip_forward(player, (n - 1) as nat).next())
    }
}

/// The tracks that a player holds.
pub open spec fn tracks_of(player: PlayerView) -> Multiset<Track> {
    player.pending.to_multiset().add(player.history.to_multiset()).add(
        option_tracks(player.current),
    ).add(option_tracks(player.loading))
}

/// The track of an option, as a multiset.
pub open spec fn option_tracks(track: Option<Track>) -> Multiset<Track> {
    match track {
        Some(track) => Multiset::singleton(track),
        None => Multiset::empty(),
    }
}

/// Exactly the steps that set a track aside ask for a load.
proof fn lemma_asks_for_load(player: PlayerView)
    ensures
        begin_load_effects().contains(Effect::Load),
        !restart_effects().contains(Effect::Load),
        !Seq::<Effect>::empty().contains(Effect::Load),
        player.play().1.contains(Effect::Load) <==> player.current is None && player.loading is None
            && player.pending.len() > 0,
        player.next().1.contains(Effect::Load) <==> player.current is Some && player.pending.len()
            > 0,
        player.prev().1.contains(Effect::Load) <==> player.current is Some && player.history.len()
            > 0,
{
    assert(begin_load_effects()[1] == Effect::Load);
    if player.current is Some && !player.playing {
        let effects = player.play().1;
        assert forall|i: int| 0 <= i < effects.len() implies effects[i] != Effect::Load by {}
    }
}

/// A new player is well formed, and every operation keeps a well-formed
/// player well formed: the volume stays a percentage, only a loaded track
/// plays, and while a track is being loaded none is loaded.
pub proof fn law_well_formed(
    player: PlayerView,
    volume: u32,
    tracks: Seq<Track>,
    track: Track,
    position: TimeSpan,
    event: MediaEvent,
    resolution: Resolution,
)
    requires
        player.well_formed(),
    ensures
        PlayerView::initial().well_formed(),
        player.set_volume(volume).0.well_formed(),
        player.volume_up().0.well_formed(),
        player.volume_down().0.well_formed(),
        player.set_queue(tracks).0.well_formed(),
        player.play_all(tracks).0.well_formed(),
        player.play().0.well_formed(),
        player.pause().0.well_formed(),
        player.toggle_play_pause().0.well_formed(),
        player.next().0.well_formed(),
        player.prev().0.well_formed(),
        player.set_position(position).0.well_formed(),
        player.play_new_track(track).0.well_formed(),
        player.resolved(resolution).0.well_formed(),
        player.loaded().well_formed(),
        player.load_failed().well_formed(),
        player.prefetched(resolution).well_formed(),
        player.tick(position).0.well_formed(),
        player.handle_media_event(event).0.well_formed(),
{
}

/// The transport is a machine of three states. Playing starts a paused track
/// and pausing holds a playing one; a track that is set aside leaves the
/// player idle until it is loaded, and then it plays; a new queue leaves the
/// player idle.
pub proof fn law_status(player: PlayerView, tracks: Seq<Track>, track: Track)
    ensures
        player.status() == Status::Paused ==> player.play().0.status() == Status::Playing,
        player.status() == Status::Playing ==> player.pause().0.status() == Status::Paused,
        player.status() == Status::Playing ==> player.play() == (player, Seq::<Effect>::empty()),
        player.status() != Status::Playing ==> player.pause() == (player, Seq::<Effect>::empty()),
        player.play_new_track(track).0.status() == Status::Idle,
        player.play_new_track(track).0.loaded().status() == Status::Playing,
        player.play_new_track(track).0.loaded().current == Some(track),
        player.set_queue(tracks).0.status() == Status::Idle,
{
}

/// A new queue: no track is loaded, the queue holds the tracks given and the
/// history is empty.
pub proof fn law_set_queue(player: PlayerView, tracks: Seq<Track>)
    ensures
        player.set_queue(tracks).0.current is None,
        player.set_queue(tracks).0.loading is None,
        player.set_queue(tracks).0.pending == tracks,
        player.set_queue(tracks).0.history.len() == 0,
{
}

/// Playing from idle with tracks in the queue takes exactly the head of the
/// queue, and that track is the one that plays once it is loaded: the queue
/// is shorter by one, the history untouched.
pub proof fn law_play_from_idle(player: PlayerView)
    requires
        player.current is None,
        player.loading is None,
        player.pending.len() > 0,
    ensures
        player.play().1 == begin_load_effects(),
        player.play().0.loading == Some(player.pending[0]),
        player.play().0.pending.len() == player.pending.len() - 1,
        settle(player.play()).current == Some(player.pending[0]),
        settle(player.play()).loading is None,
        settle(player.play()).pending == player.pending.skip(1),
        settle(player.play()).history == player.history,
        settle(player.play()).status() == Status::Playing,
        settle(player.play()).position == TimeSpan::spec_zero(),
{
    lemma_asks_for_load(player);
}

/// While a track is being loaded, no track is loaded and nothing plays. A
/// load that fails leaves the player idle with the queue and the history as
/// the step left them, and playing then goes on with the track after.
pub proof fn law_load_in_progress(player: PlayerView)
    requires
        player.well_formed(),
        player.loading is Some,
    ensures
        player.status() == Status::Idle,
        player.play() == (player, Seq::<Effect>::empty()),
        player.next() == (player, Seq::<Effect>::empty()),
        player.prev() == (player, Seq::<Effect>::empty()),
        player.load_failed().status() == Status::Idle,
        player.load_failed().pending == player.pending,
        player.load_failed().history == player.history,
        player.pending.len() > 0 ==> player.load_failed().play().0.loading == Some(
            player.pending[0],
        ),
{
}

/// The outcome of a lookup touches nothing but the track that is being
/// loaded, of which it keeps the id. An answer keeps the load going; a
/// failure ends it and is handed back.
pub proof fn law_resolved(player: PlayerView, resolution: Resolution)
    requires
        player.loading is Some,
    ensures
        ({
            let (after, told) = player.resolved(resolution);
            let track = player.loading->Some_0;
            &&& told == track@.resolve(resolution).1
            &&& after.current == player.current
            &&& after.pending == player.pending
            &&& after.history == player.history
            &&& after.position == player.position
            &&& after.playing == player.playing
            &&& after.volume == player.volume
            &&& told is Ok ==> after.loading is Some && after.loading->Some_0@ == track@.resolve(
                resolution,
            ).0 && after.loading->Some_0@.id == track@.id
            &&& told is Err ==> after == player.load_failed()
        }),
{
    let track = player.loading->Some_0;
    Track::lemma_view_of(track@.resolve(resolution).0);
}

/// A load comes to its end: each answer to the lookup that the load asks for
/// keeps the load going and leaves one lookup fewer to ask for, of no more
/// than four; when none is left, the load asks for no lookup any more.
pub proof fn law_load_advances(
    player: PlayerView,
    quality: AudioQuality,
    lookup: Lookup,
    resolution: Resolution,
)
    requires
        player.loading is Some,
        player.loading->Some_0@.pending_lookup(quality) == Some(lookup),
        answers(resolution, lookup),
        is_answer(resolution),
    ensures
        ({
            let before = player.loading->Some_0@;
            let (after, told) = player.resolved(resolution);
            &&& told is Ok
            &&& after.loading is Some
            &&& after.loading->Some_0@.holds(lookup)
            &&& after.loading->Some_0@.prefetch_lookups(quality).len() == before.prefetch_lookups(
                quality,
            ).len() - 1
            &&& before.prefetch_lookups(quality).len() <= 4
        }),
{
    let before = player.loading->Some_0@;
    law_lookups_run_out(before, quality, lookup, resolution);
    Track::lemma_view_of(before.resolve(resolution).0);
}

/// Where the queue walks to: after a new queue of tracks is started and `k`
/// skips are made, track `k` plays, the tracks before it are the history in
/// the order in which they played, and the tracks after it are the queue.
proof fn lemma_skip_forward(player: PlayerView, tracks: Seq<Track>, k: nat)
    requires
        k < tracks.len(),
    ensures
        ({
            let there = skip_forward(settle(player.set_queue(tracks).0.play()), k);
            &&& there.current == Some(tracks[k as int])
            &&& there.loading is None
            &&& there.history == tracks.take(k as int)
            &&& there.pending == tracks.skip(k as int + 1)
        }),
    decreases k,
{
    let queued = player.set_queue(tracks).0;
    let started = settle(queued.play());
    if k == 0 {
        lemma_asks_for_load(queued);
        assert(started.history =~= tracks.take(0));
        assert(started.pending =~= tracks.skip(1));
    } else {
        lemma_skip_forward(player, tracks, (k - 1) as nat);
        let before = skip_forward(started, (k - 1) as nat);
        let there = skip_forward(started, k);
        lemma_asks_for_load(before);
        assert(there == settle(before.next()));
        assert(before.pending[0] == tracks[k as int]);
        assert(there.history =~= tracks.take(k as int));
        assert(there.pending =~= tracks.skip(k as int + 1));
    }
}

/// Skipping `n` times through a queue of `n + 1` tracks moves each track
/// that played into the history, in the order in which they played, and
/// leaves the last track playing and the queue empty.
pub proof fn law_next_walks_queue(player: PlayerView, tracks: Seq<Track>, n: nat)
    requires
        tracks.len() == n + 1,
    ensures
        ({
            let done = skip_forward(settle(player.set_queue(tracks).0.play()), n);
            &&& done.current == Some(tracks[n as int])
            &&& done.history == tracks.take(n as int)
            &&& done.pending.len() == 0
            &&& done.status() == Status::Playing
        }),
{
    lemma_skip_forward(player, tracks, n);
    let queued = player.set_queue(tracks).0;
    let started = settle(queued.play());
    if n == 0 {
        lemma_asks_for_load(queued);
    } else {
        lemma_skip_forward(player, tracks, (n - 1) as nat);
        lemma_asks_for_load(skip_forward(started, (n - 1) as nat));
    }
}

/// Skipping to the next track and back again returns to the track that was
/// loaded, with the queue and the history as they were. This holds wherever
/// the skip moves at all or the way back does not: it fails only where the
/// queue is empty and the history is not, for there the skip starts the
/// track over and the way back leaves it.
pub proof fn law_next_prev_round_trip(player: PlayerView)
    requires
        !(player.current is Some && player.pending.len() == 0 && player.history.len() > 0),
    ensures
        ({
            let back = settle(settle(player.next()).prev());
            &&& back.current == player.current
            &&& back.pending == player.pending
            &&& back.history == player.history
        }),
{
    lemma_asks_for_load(player);
    let there = settle(player.next());
    lemma_asks_for_load(there);
    if player.current is Some && player.pending.len() > 0 {
        assert(there.history.len() > 0);
        let back = settle(there.prev());
        assert(back.pending =~= player.pending);
        assert(back.history =~= player.history);
    }
}

/// Skipping to the next track with an empty queue leaves the loaded track
/// loaded, at its start, and paused. The same holds of skipping back with an
/// empty history.
pub proof fn law_skip_at_end(player: PlayerView)
    requires
        player.current is Some,
    ensures
        player.pending.len() == 0 ==> {
            &&& player.next().0.current == player.current
            &&& player.next().0.position == TimeSpan::spec_zero()
            &&& player.next().0.status() == Status::Paused
            &&& player.next().0.pending == player.pending
            &&& player.next().0.history == player.history
            &&& player.next().1 == restart_effects()
        },
        player.history.len() == 0 ==> {
            &&& player.prev().0.current == player.current
            &&& player.prev().0.position == TimeSpan::spec_zero()
            &&& player.prev().0.status() == Status::Paused
            &&& player.prev().0.pending == player.pending
            &&& player.prev().0.history == player.history
            &&& player.prev().1 == restart_effects()
        },
{
}

/// No transport step of a well-formed player adds, loses or doubles a
/// track: the tracks of the queue and of the history, the loaded one and the
/// one that is being loaded are after the step what they were before. The
/// same holds when the track that was being loaded is loaded.
pub proof fn law_tracks_are_kept(player: PlayerView, position: TimeSpan, event: MediaEvent)
    requires
        player.well_formed(),
    ensures
        tracks_of(player.next().0) == tracks_of(player),
        tracks_of(player.prev().0) == tracks_of(player),
        tracks_of(player.play().0) == tracks_of(player),
        tracks_of(player.pause().0) == tracks_of(player),
        tracks_of(player.loaded()) == tracks_of(player),
        tracks_of(player.set_position(position).0) == tracks_of(player),
        tracks_of(player.tick(position).0) == tracks_of(player),
        tracks_of(player.handle_media_event(event).0) == tracks_of(player),
{
    lemma_tracks_after_next(player);
    lemma_tracks_after_prev(player);
    lemma_tracks_after_play(player);
    assert(tracks_of(player.loaded()) =~= tracks_of(player));
}

proof fn lemma_tracks_after_next(player: PlayerView)
    requires
        player.well_formed(),
    ensures
        tracks_of(player.next().0) == tracks_of(player),
{
    broadcast use vstd::seq_lib::group_to_multiset_ensures;

    if player.current is Some && player.pending.len() > 0 {
        let head = player.pending[0];
        assert(player.pending =~= seq![head] + player.pending.skip(1));
        vstd::seq_lib::lemma_multiset_commutative(seq![head], player.pending.skip(1));
        assert(seq![head] =~= Seq::<Track>::empty().push(head));
        assert(seq![head].to_multiset() =~= Multiset::singleton(head));
    }
    assert(tracks_of(player.next().0) =~= tracks_of(player));
}

proof fn lemma_tracks_after_prev(player: PlayerView)
    requires
        player.well_formed(),
    ensures
        tracks_of(player.prev().0) == tracks_of(player),
{
    broadcast use vstd::seq_lib::group_to_multiset_ensures;

    if player.current is Some && player.history.len() > 0 {
        let current = player.current->Some_0;
        let last = player.history.last();
        assert(player.history =~= player.history.drop_last().push(last));
        vstd::seq_lib::lemma_multiset_commutative(seq![current], player.pending);
        assert(seq![current] =~= Seq::<Track>::empty().push(current));
        assert(seq![current].to_multiset() =~= Multiset::singleton(current));
    }
    assert(tracks_of(player.prev().0) =~= tracks_of(player));
}

proof fn lemma_tracks_after_play(player: PlayerView)
    requires
        player.well_formed(),
    ensures
        tracks_of(player.play().0) == tracks_of(player),
        tracks_of(player.pause().0) == tracks_of(player),
{
    broadcast use vstd::seq_lib::group_to_multiset_ensures;

    if player.current is None && player.loading is None && player.pending.len() > 0 {
        let head = player.pending[0];
        assert(player.pending =~= seq![head] + player.pending.skip(1));
        vstd::seq_lib::lemma_multiset_commutative(seq![head], player.pending.skip(1));
        assert(seq![head] =~= Seq::<Track>::empty().push(head));
        assert(seq![head].to_multiset() =~= Multiset::singleton(head));
    }
    assert(tracks_of(player.play().0) =~= tracks_of(player));
    assert(tracks_of(player.pause().0) =~= tracks_of(player));
}

/// The volume is a percentage whatever is asked for, and the louder the
/// volume, the greater the gain: from silence at 0 to the greatest gain at
/// the loudest volume, and no further.
pub proof fn law_volume(player: PlayerView, lower: u32, higher: u32)
    requires
        lower <= higher,
    ensures
        player.set_volume(higher).0.volume <= MAX_VOLUME,
        higher <= MAX_VOLUME ==> player.set_volume(higher).0.volume == higher,
        higher >= MAX_VOLUME ==> player.set_volume(higher).0.volume == MAX_VOLUME,
        spec_gain(lower) <= spec_gain(higher),
        lower < higher <= MAX_VOLUME ==> spec_gain(lower) < spec_gain(higher),
        spec_gain(0) == 0,
        spec_gain(higher) <= GAIN_PER_PERCENT * MAX_VOLUME,
        spec_gain(higher) == GAIN_PER_PERCENT * spec_clamp_volume(higher),
{
}

/// The volume keys stop at the ends: at silence the volume stays 0 when
/// turned down, at the loudest it stays there when turned up.
pub proof fn law_volume_keys(player: PlayerView)
    requires
        player.well_formed(),
    ensures
        player.volume == 0 ==> player.volume_down().0.volume == 0,
        player.volume == MAX_VOLUME ==> player.volume_up().0.volume == MAX_VOLUME,
        player.volume_down().0.volume <= player.volume <= player.volume_up().0.volume,
{
}

/// Only the volume operations touch the volume, and they touch nothing else.
pub proof fn law_volume_is_apart(
    player: PlayerView,
    volume: u32,
    position: TimeSpan,
    quality: AudioQuality,
)
    ensures
        player.set_volume(volume).0 == (PlayerView { volume: spec_clamp_volume(volume), ..player }),
        player.play().0.volume == player.volume,
        player.pause().0.volume == player.volume,
        player.next().0.volume == player.volume,
        player.prev().0.volume == player.volume,
        player.loaded().volume == player.volume,
        player.tick(position).0.volume == player.volume,
{
}

/// While nothing plays, a look at the sink changes nothing. While a track
/// plays, a position that is the start, or that has moved, is taken over; the
/// display is told exactly when the whole second has changed.
pub proof fn law_tick(player: PlayerView, sink_position: TimeSpan)
    ensures
        !player.playing ==> player.tick(sink_position) == (player, Seq::<Effect>::empty()),
        player.playing && (sink_position == TimeSpan::spec_zero() || sink_position
            != player.position) ==> {
            &&& player.tick(sink_position).0 == (PlayerView { position: sink_position, ..player })
            &&& (player.tick(sink_position).1.len() > 0 <==> sink_position.spec_whole_seconds()
                != player.position.spec_whole_seconds())
        },
        player.playing && sink_position != TimeSpan::spec_zero() && sink_position
            == player.position ==> player.tick(sink_position).0 == player.next().0,
{
}

} // verus!
