//! The player: the queue of tracks to come, the history of tracks played,
//! the track that plays, and the transport over them.
//!
//! The player performs nothing itself. Each operation changes the player's
//! state and hands back the effects that the change asks of the audio sink,
//! of the now-playing display and of the screen, in the order in which they
//! are to be carried out; the first effect that fails ends the list.

use crate::player::model::{
    begin_load_effects, load_effects, restart_effects, spec_clamp_volume, spec_gain, PlayerView,
};
use crate::rtidalapi::track::{Lookup, Resolution, ResolutionError, Track};
use crate::rtidalapi::AudioQuality;
use crate::time::{spec_parse_duration, TimeSpan};
use crate::AppEvent;
use rand::seq::SliceRandom;
use std::collections::VecDeque;
use vstd::multiset::Multiset;
use vstd::prelude::*;

pub mod model;
pub mod proofs;

verus! {

/// The loudest volume, in percent.
pub const MAX_VOLUME: u32 = 100;

/// The volume of a new player, in percent.
pub const DEFAULT_VOLUME: u32 = 50;

/// The step of the volume keys, in percent.
pub const VOLUME_STEP: u32 = 5;

/// The gain of one percent of volume, in ten-thousandths of the sink's full
/// scale: full volume is fifteen hundredths of full scale, which is loud
/// enough.
pub const GAIN_PER_PERCENT: u32 = 15;

/// What the now-playing display shows of a track.
#[derive(Clone, Debug, PartialEq, Eq)]
pub struct NowPlaying {
    pub title: String,
    pub album: String,
    pub artist: String,
    pub duration: TimeSpan,
    pub cover_url: String,
}

/// Something that the player asks of its surroundings.
#[derive(Debug, PartialEq, Eq)]
pub enum Effect {
    /// Stop the audio and empty the sink.
    ClearSink,
    /// Let the sink run.
    ResumeSink,
    /// Hold the sink.
    PauseSink,
    /// Move the sink to this position in the track.
    SeekSink(TimeSpan),
    /// Set the sink's gain, in ten-thousandths of full scale.
    SetGain(u32),
    /// Open the stream at this address, decode it and queue it in the sink.
    Stream(String),
    /// Show this track on the now-playing display.
    ShowMetadata(NowPlaying),
    /// Show the display as playing, at this position if one is given.
    ShowPlaying(Option<TimeSpan>),
    /// Show the display as paused, at this position if one is given.
    ShowPaused(Option<TimeSpan>),
    /// Load the track that the player has set aside: do what
    /// `Player::load_request` asks for, step by step, until it asks for
    /// nothing more.
    Load,
    /// Tell the screen.
    Notify(AppEvent),
}

/// A command from the media keys or the desktop's media controls.
#[derive(Clone, Copy, Debug, PartialEq, Eq, Structural)]
pub enum MediaEvent {
    Play,
    Pause,
    Next,
    Previous,
    SetPosition(TimeSpan),
    /// Any other event: the player does not act on it.
    Other,
}

/// Where the transport stands.
#[derive(Clone, Copy, Debug, PartialEq, Eq, Structural)]
pub enum Status {
    /// No track is loaded.
    Idle,
    Playing,
    Paused,
}

/// What the load of a track needs next.
#[derive(Debug, PartialEq, Eq)]
pub enum LoadRequest {
    /// No track is being loaded: there is nothing to do.
    Nothing,
    /// Make this lookup about the track with this id, and hand its outcome
    /// to `Player::resolved`.
    Lookup(String, Lookup),
    /// Carry these effects out. When all went well, call `Player::loaded`;
    /// when one failed, call `Player::load_failed`.
    Start(Vec<Effect>),
}

/// The state of playback: the track that is loaded, the tracks to come and
/// the tracks played, the position, and the volume.
pub struct Player {
    current_track: Option<Track>,
    loading_track: Option<Track>,
    queue: VecDeque<Track>,
    queue_history: VecDeque<Track>,
    position: TimeSpan,
    is_playing: bool,
    volume: u32,
}

impl View for Player {
    type V = PlayerView;

    closed spec fn view(&self) -> PlayerView {
        PlayerView {
            current: self.current_track,
            loading: self.loading_track,
            pending: self.queue@,
            history: self.queue_history@,
            position: self.position,
            playing: self.is_playing,
            volume: self.volume,
        }
    }
}

/// Puts the tracks in a random order with `shuffle` of `rand::seq::SliceRandom`,
/// on the generator of `rand::rng`. Trusted: the tracks afterwards are the
/// tracks before, each as often as before; nothing is claimed of their order.
#[verifier::external_body]
fn shuffle_tracks(tracks: &mut VecDeque<Track>)
    ensures
        final(tracks)@.to_multiset() == old(tracks)@.to_multiset(),
{
    tracks.make_contiguous().shuffle(&mut rand::rng());
}

/// Returns the gain that the sink gets at a volume of `volume` percent, in
/// ten-thousandths of full scale.
pub fn gain(volume: u32) -> (r: u32)
    ensures
        r == spec_gain(volume),
        r <= GAIN_PER_PERCENT * MAX_VOLUME,
{
    let clamped = if volume > MAX_VOLUME {
        MAX_VOLUME
    } else {
        volume
    };
    GAIN_PER_PERCENT * clamped
}

/// Returns what loading `track` at `quality` asks of the sink and of the
/// display, once the lookups of the track are made. Where one is still to be
/// made, the first such lookup is the error; where the length of the track
/// cannot be read, the matcher's message is.
pub fn load(track: &Track, quality: AudioQuality) -> (r: Result<Vec<Effect>, ResolutionError>)
    ensures
        match track@.pending_lookup(quality) {
            Some(lookup) => r == Err::<Vec<Effect>, ResolutionError>(
                ResolutionError::Missing(lookup),
            ),
            None => match spec_parse_duration(track@.attributes->Resolved_0.duration@) {
                Ok(duration) => r is Ok && r->Ok_0@ == load_effects(track@, duration),
                Err(message) => r matches Err(ResolutionError::Failed(m)) && m@ == message,
            },
        },
{
    let url = match track.get_url(quality) {
        Ok(url) => url,
        Err(e) => {
            return Err(e);
        },
    };
    let attributes = match track.get_attribtues() {
        Ok(attributes) => attributes,
        Err(e) => {
            return Err(e);
        },
    };
    let album = match track.get_album() {
        Ok(album) => album,
        Err(e) => {
            return Err(e);
        },
    };
    let artist = match track.get_artist() {
        Ok(artist) => artist,
        Err(e) => {
            return Err(e);
        },
    };
    let duration = match track.get_duration() {
        Ok(duration) => duration,
        Err(e) => {
            return Err(e);
        },
    };
    let shown = NowPlaying {
        title: attributes.title.clone(),
        album: album.attributes.title.clone(),
        artist: artist.attributes.name.clone(),
        duration,
        cover_url: album.cover_art_url.clone(),
    };
    let effects = vec![
        Effect::Stream(url),
        Effect::ResumeSink,
        Effect::ShowMetadata(shown),
        Effect::ShowPlaying(None),
    ];
    assert(effects@ =~= load_effects(track@, duration));
    Ok(effects)
}

impl Player {
    /// Returns a new player.
    pub fn new() -> (r: Player)
        ensures
            r@ == PlayerView::initial(),
            r@.well_formed(),
    {
        Player {
            current_track: None,
            loading_track: None,
            queue: VecDeque::new(),
            queue_history: VecDeque::new(),
            position: TimeSpan::zero(),
            is_playing: false,
            volume: DEFAULT_VOLUME,
        }
    }

    /// Returns a reference to the current track if one exists.
    pub fn get_current_track(&self) -> (r: Option<&Track>)
        ensures
            r is Some == self@.current is Some,
            r is Some ==> *r->Some_0 == self@.current->Some_0,
    {
        self.current_track.as_ref()
    }

    /// Returns a reference to the track that is being loaded if one is.
    pub fn get_loading_track(&self) -> (r: Option<&Track>)
        ensures
            r is Some == self@.loading is Some,
            r is Some ==> *r->Some_0 == self@.loading->Some_0,
    {
        self.loading_track.as_ref()
    }

    /// Returns the track at the head of the queue, if there is one.
    pub fn get_next_track(&self) -> (r: Option<&Track>)
        ensures
            r is Some == (self@.pending.len() > 0),
            r is Some ==> *r->Some_0 == self@.pending[0],
    {
        if self.queue.len() > 0 {
            Some(&self.queue[0])
        } else {
            None
        }
    }

    /// Returns the tracks to come, the next one first.
    pub fn get_queue(&self) -> (r: &VecDeque<Track>)
        ensures
            r@ == self@.pending,
    {
        &self.queue
    }

    /// Returns the tracks played, the latest one last.
    pub fn get_queue_history(&self) -> (r: &VecDeque<Track>)
        ensures
            r@ == self@.history,
    {
        &self.queue_history
    }

    /// Returns the position of the current track.
    pub fn get_position(&self) -> (r: TimeSpan)
        ensures
            r == self@.position,
    {
        self.position
    }

    /// Returns true iff this player is currently playing.
    pub fn is_playing(&self) -> (r: bool)
        ensures
            r == self@.playing,
    {
        self.is_playing
    }

    /// Returns this player's volume.
    pub fn get_volume(&self) -> (r: u32)
        ensures
            r == self@.volume,
    {
        self.volume
    }

    /// Returns where the transport stands.
    pub fn status(&self) -> (r: Status)
        ensures
            r == self@.status(),
    {
        if self.current_track.is_none() {
            Status::Idle
        } else if self.is_playing {
            Status::Playing
        } else {
            Status::Paused
        }
    }

    /// Sets this player's volume, no louder than the loudest, and has the
    /// sink's gain follow.
    pub fn set_volume(&mut self, volume: u32) -> (effects: Vec<Effect>)
        ensures
            (final(self)@, effects@) == old(self)@.set_volume(volume),
            final(self)@.volume == spec_clamp_volume(volume),
            old(self)@.well_formed() ==> final(self)@.well_formed(),
    {
        if volume > MAX_VOLUME {
            self.volume = MAX_VOLUME;
        } else {
            self.volume = volume;
        }
        let effects = vec![Effect::SetGain(gain(volume))];
        assert(effects@ =~= old(self)@.set_volume(volume).1);
        assert(self@ =~= old(self)@.set_volume(volume).0);
        effects
    }

    /// Turns the volume up by one step, no louder than the loudest.
    pub fn volume_up(&mut self) -> (effects: Vec<Effect>)
        ensures
            (final(self)@, effects@) == old(self)@.volume_up(),
            old(self)@.well_formed() ==> final(self)@.well_formed(),
    {
        let volume = self.volume.saturating_add(VOLUME_STEP);
        self.set_volume(volume)
    }

    /// Turns the volume down by one step, no lower than silence.
    pub fn volume_down(&mut self) -> (effects: Vec<Effect>)
        ensures
            (final(self)@, effects@) == old(self)@.volume_down(),
            old(self)@.well_formed() ==> final(self)@.well_formed(),
    {
        let volume = self.volume.saturating_sub(VOLUME_STEP);
        self.set_volume(volume)
    }

    /// Sets this player's queue and clears the currently playing track, if
    /// one exists.
    pub fn set_queue(&mut self, tracks: VecDeque<Track>) -> (effects: Vec<Effect>)
        ensures
            (final(self)@, effects@) == old(self)@.set_queue(tracks@),
            old(self)@.well_formed() ==> final(self)@.well_formed(),
    {
        self.is_playing = false;
        self.current_track = None;
        self.loading_track = None;
        self.queue = tracks;
        self.queue_history.clear();
        let effects = vec![Effect::ClearSink];
        assert(effects@ =~= old(self)@.set_queue(tracks@).1);
        assert(self@ =~= old(self)@.set_queue(tracks@).0);
        effects
    }

    /// Randomly shuffles this player's queue and queue history into a new
    /// queue. The current track and the transport stay as they are.
    pub fn shuffle_queue(&mut self)
        ensures
            final(self)@.pending.to_multiset() == old(self)@.pending.to_multiset().add(
                old(self)@.history.to_multiset(),
            ),
            final(self)@.history == Seq::<Track>::empty(),
            final(self)@.pending.to_multiset().add(final(self)@.history.to_multiset()) == old(
                self,
            )@.pending.to_multiset().add(old(self)@.history.to_multiset()),
            final(self)@.pending.len() == old(self)@.pending.len() + old(self)@.history.len(),
            final(self)@.current == old(self)@.current,
            final(self)@.loading == old(self)@.loading,
            final(self)@.position == old(self)@.position,
            final(self)@.playing == old(self)@.playing,
            final(self)@.volume == old(self)@.volume,
            old(self)@.well_formed() ==> final(self)@.well_formed(),
    {
        proof {
            vstd::seq_lib::lemma_multiset_commutative(self.queue@, self.queue_history@);
        }
        self.queue.append(&mut self.queue_history);
        shuffle_tracks(&mut self.queue);
        proof {
            self.queue@.to_multiset_ensures();
            (old(self).queue@ + old(self).queue_history@).to_multiset_ensures();
            assert(self.queue_history@.to_multiset() =~= Multiset::<Track>::empty()) by {
                self.queue_history@.to_multiset_ensures();
            }
        }
    }

    /// Starts playing the given tracks from the first.
    pub fn play_all(&mut self, tracks: VecDeque<Track>) -> (effects: Vec<Effect>)
        ensures
            (final(self)@, effects@) == old(self)@.play_all(tracks@),
            old(self)@.well_formed() ==> final(self)@.well_formed(),
    {
        let mut effects = self.set_queue(tracks);
        let mut started = self.play();
        effects.append(&mut started);
        effects
    }

    /// Starts playing the given tracks in a random order: the player is as
    /// if some arrangement of the tracks had been started from its first.
    pub fn shuffle_all(&mut self, tracks: VecDeque<Track>) -> (effects: Vec<Effect>)
        ensures
            exists|order: Seq<Track>|
                order.to_multiset() == tracks@.to_multiset() && (final(self)@, effects@) == old(
                    self,
                )@.play_all(order),
            old(self)@.well_formed() ==> final(self)@.well_formed(),
    {
        let mut effects = self.set_queue(tracks);
        self.shuffle_queue();
        let ghost order = self@.pending;
        proof {
            assert(Seq::<Track>::empty().to_multiset() =~= Multiset::<Track>::empty()) by {
                Seq::<Track>::empty().to_multiset_ensures();
            }
            assert(order.to_multiset() =~= tracks@.to_multiset());
            assert(self@ =~= old(self)@.set_queue(order).0);
        }
        let mut started = self.play();
        effects.append(&mut started);
        assert((self@, effects@) == old(self)@.play_all(order));
        effects
    }

    /// Starts the loaded track over and holds it.
    fn restart(&mut self) -> (effects: Vec<Effect>)
        ensures
            (final(self)@, effects@) == old(self)@.restart(),
            old(self)@.well_formed() ==> final(self)@.well_formed(),
    {
        self.position = TimeSpan::zero();
        self.is_playing = false;
        let effects = vec![
            Effect::SeekSink(TimeSpan::zero()),
            Effect::ShowPaused(Some(TimeSpan::zero())),
            Effect::PauseSink,
        ];
        assert(effects@ =~= restart_effects());
        assert(self@ =~= old(self)@.restart().0);
        effects
    }

    /// Replaces the current track with the given track and starts playback:
    /// the current track is dropped, the audio stops, and the given track is
    /// set aside to be loaded.
    pub fn play_new_track(&mut self, track: Track) -> (effects: Vec<Effect>)
        ensures
            (final(self)@, effects@) == old(self)@.play_new_track(track),
            old(self)@.well_formed() ==> final(self)@.well_formed(),
    {
        self.is_playing = false;
        self.current_track = None;
        self.loading_track = Some(track);
        let effects = vec![Effect::ClearSink, Effect::Load];
        assert(effects@ =~= begin_load_effects());
        assert(self@ =~= old(self)@.play_new_track(track).0);
        effects
    }

    /// Returns what the load of the track that is set aside needs next: the
    /// first lookup that the track still waits for, or, when it waits for
    /// none, the effects that start it. Where the length of the track cannot
    /// be read, the load is given up and the matcher's message is the error.
    pub fn load_request(&mut self, quality: AudioQuality) -> (r: Result<
        LoadRequest,
        ResolutionError,
    >)
        ensures
            match old(self)@.loading {
                None => final(self)@ == old(self)@ && r == Ok::<LoadRequest, ResolutionError>(
                    LoadRequest::Nothing,
                ),
                Some(track) => match track@.pending_lookup(quality) {
                    Some(lookup) => final(self)@ == old(self)@ && r == Ok::<
                        LoadRequest,
                        ResolutionError,
                    >(LoadRequest::Lookup(track@.id, lookup)),
                    None => match spec_parse_duration(track@.attributes->Resolved_0.duration@) {
                        Ok(duration) => {
                            &&& final(self)@ == old(self)@
                            &&& r matches Ok(LoadRequest::Start(effects))
                            &&& effects@ == load_effects(track@, duration)
                        },
                        Err(message) => {
                            &&& final(self)@ == old(self)@.load_failed()
                            &&& r matches Err(ResolutionError::Failed(m))
                            &&& m@ == message
                        },
                    },
                },
            },
            old(self)@.well_formed() ==> final(self)@.well_formed(),
    {
        let request = match &self.loading_track {
            None => Ok(LoadRequest::Nothing),
            Some(track) => match track.pending_lookup(quality) {
                Some(lookup) => Ok(LoadRequest::Lookup(track.id().clone(), lookup)),
                None => match load(track, quality) {
                    Ok(effects) => Ok(LoadRequest::Start(effects)),
                    Err(e) => Err(e),
                },
            },
        };
        if request.is_err() {
            self.loading_track = None;
            assert(self@ =~= old(self)@.load_failed());
        }
        request
    }

    /// Takes in the outcome of a lookup that the load asked for. A lookup
    /// that failed ends the load: the track is dropped, no track is loaded,
    /// and the failure is handed back.
    pub fn resolved(&mut self, resolution: Resolution) -> (r: Result<(), ResolutionError>)
        ensures
            (final(self)@, r) == old(self)@.resolved(resolution),
            old(self)@.loading is Some && r is Ok ==> {
                &&& final(self)@.loading is Some
                &&& final(self)@.loading->Some_0@ == old(self)@.loading->Some_0@.resolve(
                    resolution,
                ).0
            },
            old(self)@.well_formed() ==> final(self)@.well_formed(),
    {
        match self.loading_track.take() {
            None => {
                assert(self@ =~= old(self)@);
                Ok(())
            },
            Some(track) => {
                let mut track = track;
                match track.resolve(resolution) {
                    Ok(()) => {
                        proof {
                            track.lemma_from_view();
                        }
                        self.loading_track = Some(track);
                        assert(self@ =~= old(self)@.resolved(resolution).0);
                        Ok(())
                    },
                    Err(e) => {
                        assert(self@ =~= old(self)@.load_failed());
                        Err(e)
                    },
                }
            },
        }
    }

    /// The effects that start the track that is set aside have been carried
    /// out: the track is the current track and plays from its start. Returns
    /// the lookups that warm up the track after it.
    pub fn loaded(&mut self, quality: AudioQuality) -> (lookups: Vec<Lookup>)
        ensures
            final(self)@ == old(self)@.loaded(),
            lookups@ == if old(self)@.loading is Some {
                old(self)@.prefetch_lookups(quality)
            } else {
                Seq::<Lookup>::empty()
            },
            old(self)@.well_formed() ==> final(self)@.well_formed(),
    {
        match self.loading_track.take() {
            None => {
                assert(self@ =~= old(self)@);
                Vec::new()
            },
            Some(track) => {
                self.current_track = Some(track);
                self.is_playing = true;
                self.position = TimeSpan::zero();
                assert(self@ =~= old(self)@.loaded());
                if self.queue.len() > 0 {
                    self.queue[0].prefetch_lookups(quality)
                } else {
                    Vec::new()
                }
            },
        }
    }

    /// An effect that starts the track that is set aside has failed: the
    /// load is given up, the track is dropped and no track is loaded.
    pub fn load_failed(&mut self)
        ensures
            final(self)@ == old(self)@.load_failed(),
            old(self)@.well_formed() ==> final(self)@.well_formed(),
    {
        self.loading_track = None;
        assert(self@ =~= old(self)@.load_failed());
    }

    /// Takes in the outcome of a lookup that was made to warm up the head of
    /// the queue. A failure is dropped and told to nobody.
    pub fn prefetched(&mut self, resolution: Resolution)
        ensures
            final(self)@ == old(self)@.prefetched(resolution),
            old(self)@.pending.len() > 0 ==> final(self)@.pending[0]@ == old(
                self,
            )@.pending[0]@.resolve(resolution).0,
            old(self)@.well_formed() ==> final(self)@.well_formed(),
    {
        match self.queue.pop_front() {
            Some(track) => {
                let mut track = track;
                let _ = track.resolve(resolution);
                proof {
                    track.lemma_from_view();
                    Track::lemma_view_of(old(self)@.pending[0]@.resolve(resolution).0);
                }
                self.queue.push_front(track);
                assert(self@ =~= old(self)@.prefetched(resolution));
            },
            None => {
                assert(self@ =~= old(self)@.prefetched(resolution));
            },
        }
    }

    /// Resumes playback if a track is paused, or starts playing the first
    /// track in the queue (if non-empty).
    pub fn play(&mut self) -> (effects: Vec<Effect>)
        ensures
            (final(self)@, effects@) == old(self)@.play(),
            old(self)@.well_formed() ==> final(self)@.well_formed(),
    {
        if self.current_track.is_some() && !self.is_playing {
            self.is_playing = true;
            let effects = vec![Effect::ShowPlaying(Some(self.position)), Effect::ResumeSink];
            assert(effects@ =~= old(self)@.play().1);
            assert(self@ =~= old(self)@.play().0);
            effects
        } else if self.current_track.is_none() && self.loading_track.is_none() && self.queue.len()
            > 0 {
            let track = self.queue.pop_front().unwrap();
            assert(self@ =~= (PlayerView { pending: old(self)@.pending.skip(1), ..old(self)@ }));
            self.play_new_track(track)
        } else {
            let effects = Vec::new();
            assert(effects@ =~= old(self)@.play().1);
            effects
        }
    }

    /// Pauses playback if a track is playing.
    pub fn pause(&mut self) -> (effects: Vec<Effect>)
        ensures
            (final(self)@, effects@) == old(self)@.pause(),
            old(self)@.well_formed() ==> final(self)@.well_formed(),
    {
        if self.current_track.is_some() && self.is_playing {
            self.is_playing = false;
            let effects = vec![Effect::ShowPaused(Some(self.position)), Effect::PauseSink];
            assert(effects@ =~= old(self)@.pause().1);
            assert(self@ =~= old(self)@.pause().0);
            effects
        } else {
            let effects = Vec::new();
            assert(effects@ =~= old(self)@.pause().1);
            effects
        }
    }

    /// Pauses a playing track; else resumes playback or starts the queue.
    pub fn toggle_play_pause(&mut self) -> (effects: Vec<Effect>)
        ensures
            (final(self)@, effects@) == old(self)@.toggle_play_pause(),
            old(self)@.well_formed() ==> final(self)@.well_formed(),
    {
        if self.is_playing {
            self.pause()
        } else {
            self.play()
        }
    }

    /// Skips to playing the next track in the queue.
    pub fn next(&mut self) -> (effects: Vec<Effect>)
        ensures
            (final(self)@, effects@) == old(self)@.next(),
            old(self)@.well_formed() ==> final(self)@.well_formed(),
    {
        if self.current_track.is_none() {
            let effects = Vec::new();
            assert(effects@ =~= old(self)@.next().1);
            effects
        } else if self.queue.len() > 0 {
            let current = self.current_track.take().unwrap();
            let track = self.queue.pop_front().unwrap();
            self.queue_history.push_back(current);
            assert(self@ =~= (PlayerView {
                current: None,
                pending: old(self)@.pending.skip(1),
                history: old(self)@.history.push(current),
                ..old(self)@
            }));
            self.play_new_track(track)
        } else {
            self.restart()
        }
    }

    /// Goes back to play the previous track in the queue history.
    pub fn prev(&mut self) -> (effects: Vec<Effect>)
        ensures
            (final(self)@, effects@) == old(self)@.prev(),
            old(self)@.well_formed() ==> final(self)@.well_formed(),
    {
        if self.current_track.is_none() {
            let effects = Vec::new();
            assert(effects@ =~= old(self)@.prev().1);
            effects
        } else if self.queue_history.len() > 0 {
            let current = self.current_track.take().unwrap();
            let track = self.queue_history.pop_back().unwrap();
            self.queue.push_front(current);
            assert(self@ =~= (PlayerView {
                current: None,
                pending: seq![current] + old(self)@.pending,
                history: old(self)@.history.drop_last(),
                ..old(self)@
            }));
            self.play_new_track(track)
        } else {
            self.restart()
        }
    }

    /// Sets the position of playback in the player if there is a current
    /// track.
    pub fn set_position(&mut self, position: TimeSpan) -> (effects: Vec<Effect>)
        ensures
            (final(self)@, effects@) == old(self)@.set_position(position),
            old(self)@.well_formed() ==> final(self)@.well_formed(),
    {
        if self.current_track.is_some() {
            self.position = position;
            let effects = vec![Effect::SeekSink(position)];
            assert(effects@ =~= old(self)@.set_position(position).1);
            assert(self@ =~= old(self)@.set_position(position).0);
            effects
        } else {
            let effects = Vec::new();
            assert(effects@ =~= old(self)@.set_position(position).1);
            effects
        }
    }

    /// Takes one look at the position that the sink reports.
    pub fn tick(&mut self, sink_position: TimeSpan) -> (effects: Vec<Effect>)
        ensures
            (final(self)@, effects@) == old(self)@.tick(sink_position),
            old(self)@.well_formed() ==> final(self)@.well_formed(),
    {
        if !self.is_playing {
            let effects = Vec::new();
            assert(effects@ =~= old(self)@.tick(sink_position).1);
            effects
        } else if !sink_position.is_zero() && sink_position == self.position {
            let mut effects = self.next();
            effects.push(Effect::Notify(AppEvent::ReRender));
            effects
        } else {
            let mut effects = Vec::new();
            if sink_position.whole_seconds() != self.position.whole_seconds() {
                effects.push(Effect::Notify(AppEvent::ReRender));
                effects.push(Effect::ShowPlaying(Some(sink_position)));
            }
            self.position = sink_position;
            assert(effects@ =~= old(self)@.tick(sink_position).1);
            assert(self@ =~= old(self)@.tick(sink_position).0);
            effects
        }
    }

    /// Carries out the transport command that a media event stands for, and
    /// has the screen told.
    pub fn handle_media_event(&mut self, event: MediaEvent) -> (effects: Vec<Effect>)
        ensures
            (final(self)@, effects@) == old(self)@.handle_media_event(event),
            old(self)@.well_formed() ==> final(self)@.well_formed(),
    {
        let mut effects = match event {
            MediaEvent::Play => self.play(),
            MediaEvent::Pause => self.pause(),
            MediaEvent::Next => self.next(),
            MediaEvent::Previous => self.prev(),
            MediaEvent::SetPosition(position) => self.set_position(position),
            MediaEvent::Other => Vec::new(),
        };
        effects.push(Effect::Notify(AppEvent::ReRender));
        effects
    }
}

} // verus!
