//! The player as contracts speak of it: its state, and what each operation
//! makes of a state.

use crate::player::{
    Effect, MediaEvent, NowPlaying, Status, DEFAULT_VOLUME, GAIN_PER_PERCENT, MAX_VOLUME,
    VOLUME_STEP,
};
use crate::rtidalapi::track::{Lookup, Resolution, ResolutionError, Track, TrackView};
use crate::rtidalapi::AudioQuality;
use crate::time::TimeSpan;
use crate::AppEvent;
use vstd::prelude::*;

verus! {

/// The gain that the sink gets at a volume of `volume` percent, in
/// ten-thousandths of full scale.
pub open spec fn spec_gain(volume: u32) -> u32 {
    (GAIN_PER_PERCENT * spec_clamp_volume(volume)) as u32
}

/// `volume`, or the loudest volume where `volume` lies above it.
pub open spec fn spec_clamp_volume(volume: u32) -> u32 {
    if volume > MAX_VOLUME {
        MAX_VOLUME
    } else {
        volume
    }
}

/// A player as contracts speak of it.
#[verifier::ext_equal]
pub struct PlayerView {
    /// The track that is loaded, if any.
    pub current: Option<Track>,
    /// The track that is being loaded, if any.
    pub loading: Option<Track>,
    /// The tracks to come, the next one first.
    pub pending: Seq<Track>,
    /// The tracks played, the latest one last.
    pub history: Seq<Track>,
    pub position: TimeSpan,
    pub playing: bool,
    pub volume: u32,
}

/// What the display shows of a track whose info is looked up and whose
/// length is `duration`.
pub open spec fn now_playing(track: TrackView, duration: TimeSpan) -> NowPlaying {
    NowPlaying {
        title: track.attributes->Resolved_0.title,
        album: track.album->Resolved_0.attributes.title,
        artist: track.artist->Resolved_0.attributes.name,
        duration,
        cover_url: track.album->Resolved_0.cover_art_url,
    }
}

/// What loading a track asks for once all its lookups are made: the stream
/// is opened and started, then the display shows the track as playing.
pub open spec fn load_effects(track: TrackView, duration: TimeSpan) -> Seq<Effect> {
    seq![
        Effect::Stream(track.url->Resolved_0.url),
        Effect::ResumeSink,
        Effect::ShowMetadata(now_playing(track, duration)),
        Effect::ShowPlaying(None),
    ]
}

/// The effects of setting a track aside to be loaded: the audio stops, then
/// the load is to be made.
pub open spec fn begin_load_effects() -> Seq<Effect> {
    seq![Effect::ClearSink, Effect::Load]
}

/// The effects of starting the loaded track over and holding it.
pub open spec fn restart_effects() -> Seq<Effect> {
    seq![
        Effect::SeekSink(TimeSpan::spec_zero()),
        Effect::ShowPaused(Some(TimeSpan::spec_zero())),
        Effect::PauseSink,
    ]
}

impl PlayerView {
    /// The player's invariant: the volume is a percentage, only a loaded
    /// track plays, and while a track is being loaded none is loaded.
    pub open spec fn well_formed(self) -> bool {
        &&& self.volume <= MAX_VOLUME
        &&& self.playing ==> self.current is Some
        &&& self.loading is Some ==> self.current is None
    }

    /// A new player: idle, empty, at the default volume.
    pub open spec fn initial() -> PlayerView {
        PlayerView {
            current: None,
            loading: None,
            pending: Seq::empty(),
            history: Seq::empty(),
            position: TimeSpan::spec_zero(),
            playing: false,
            volume: DEFAULT_VOLUME,
        }
    }

    /// Where the transport stands. The player is idle while a track is being
    /// loaded.
    pub open spec fn status(self) -> Status {
        if self.current is None {
            Status::Idle
        } else if self.playing {
            Status::Playing
        } else {
            Status::Paused
        }
    }

    /// The volume is set, no louder than the loudest, and the gain follows.
    pub open spec fn set_volume(self, volume: u32) -> (PlayerView, Seq<Effect>) {
        (
            PlayerView { volume: spec_clamp_volume(volume), ..self },
            seq![Effect::SetGain(spec_gain(volume))],
        )
    }

    /// The volume goes up by one step.
    pub open spec fn volume_up(self) -> (PlayerView, Seq<Effect>) {
        self.set_volume(
            if self.volume > u32::MAX - VOLUME_STEP {
                u32::MAX
            } else {
                (self.volume + VOLUME_STEP) as u32
            },
        )
    }

    /// The volume goes down by one step.
    pub open spec fn volume_down(self) -> (PlayerView, Seq<Effect>) {
        self.set_volume(
            if self.volume < VOLUME_STEP {
                0
            } else {
                (self.volume - VOLUME_STEP) as u32
            },
        )
    }

    /// A new queue: nothing is loaded or being loaded, nothing was played,
    /// the sink is empty.
    pub open spec fn set_queue(self, tracks: Seq<Track>) -> (PlayerView, Seq<Effect>) {
        (
            PlayerView {
                current: None,
                loading: None,
                pending: tracks,
                history: Seq::empty(),
                playing: false,
                ..self
            },
            seq![Effect::ClearSink],
        )
    }

    /// `track` is set aside to be loaded in place of the loaded track, if
    /// there is one, and the audio stops.
    pub open spec fn play_new_track(self, track: Track) -> (PlayerView, Seq<Effect>) {
        (
            PlayerView { current: None, loading: Some(track), playing: false, ..self },
            begin_load_effects(),
        )
    }

    /// A paused track goes on; with nothing loaded or being loaded, the head
    /// of the queue is taken to be loaded.
    pub open spec fn play(self) -> (PlayerView, Seq<Effect>) {
        if self.current is Some && !self.playing {
            (
                PlayerView { playing: true, ..self },
                seq![Effect::ShowPlaying(Some(self.position)), Effect::ResumeSink],
            )
        } else if self.current is None && self.loading is None && self.pending.len() > 0 {
            (PlayerView { pending: self.pending.skip(1), ..self }).play_new_track(self.pending[0])
        } else {
            (self, Seq::empty())
        }
    }

    /// A playing track is held.
    pub open spec fn pause(self) -> (PlayerView, Seq<Effect>) {
        if self.status() == Status::Playing {
            (
                PlayerView { playing: false, ..self },
                seq![Effect::ShowPaused(Some(self.position)), Effect::PauseSink],
            )
        } else {
            (self, Seq::empty())
        }
    }

    /// A new queue that starts to play at once.
    pub open spec fn play_all(self, tracks: Seq<Track>) -> (PlayerView, Seq<Effect>) {
        let (queued, cleared) = self.set_queue(tracks);
        let (started, effects) = queued.play();
        (started, cleared + effects)
    }

    pub open spec fn toggle_play_pause(self) -> (PlayerView, Seq<Effect>) {
        if self.playing {
            self.pause()
        } else {
            self.play()
        }
    }

    /// The loaded track starts over and is held.
    pub open spec fn restart(self) -> (PlayerView, Seq<Effect>) {
        (
            PlayerView { position: TimeSpan::spec_zero(), playing: false, ..self },
            restart_effects(),
        )
    }

    /// The loaded track goes to the end of the history and the head of the
    /// queue is taken to be loaded. With an empty queue the loaded track
    /// starts over and is held; with nothing loaded nothing happens.
    pub open spec fn next(self) -> (PlayerView, Seq<Effect>) {
        match self.current {
            None => (self, Seq::empty()),
            Some(current) => if self.pending.len() > 0 {
                (PlayerView {
                    pending: self.pending.skip(1),
                    history: self.history.push(current),
                    ..self
                }).play_new_track(self.pending[0])
            } else {
                self.restart()
            },
        }
    }

    /// The loaded track goes to the head of the queue and the last track of
    /// the history is taken to be loaded. With an empty history the loaded
    /// track starts over and is held; with nothing loaded nothing happens.
    pub open spec fn prev(self) -> (PlayerView, Seq<Effect>) {
        match self.current {
            None => (self, Seq::empty()),
            Some(current) => if self.history.len() > 0 {
                (PlayerView {
                    pending: seq![current] + self.pending,
                    history: self.history.drop_last(),
                    ..self
                }).play_new_track(self.history.last())
            } else {
                self.restart()
            },
        }
    }

    /// A loaded track is moved to `position`.
    pub open spec fn set_position(self, position: TimeSpan) -> (PlayerView, Seq<Effect>) {
        if self.current is Some {
            (PlayerView { position, ..self }, seq![Effect::SeekSink(position)])
        } else {
            (self, Seq::empty())
        }
    }

    /// The load is given up: the track that was being loaded is dropped, and
    /// no track is loaded.
    pub open spec fn load_failed(self) -> PlayerView {
        PlayerView { loading: None, ..self }
    }

    /// The outcome of a lookup that the load asked for is taken in by the
    /// track that is being loaded. A lookup that failed ends the load.
    pub open spec fn resolved(self, resolution: Resolution) -> (PlayerView, Result<
        (),
        ResolutionError,
    >) {
        match self.loading {
            None => (self, Ok(())),
            Some(track) => {
                let (after, told) = track@.resolve(resolution);
                if told is Ok {
                    (PlayerView { loading: Some(Track::from_view(after)), ..self }, told)
                } else {
                    (self.load_failed(), told)
                }
            },
        }
    }

    /// The track that was being loaded is loaded: it plays from its start.
    pub open spec fn loaded(self) -> PlayerView {
        match self.loading {
            None => self,
            Some(track) => PlayerView {
                current: Some(track),
                loading: None,
                position: TimeSpan::spec_zero(),
                playing: true,
                ..self
            },
        }
    }

    /// The lookups that warm up the head of the queue.
    pub open spec fn prefetch_lookups(self, quality: AudioQuality) -> Seq<Lookup> {
        if self.pending.len() > 0 {
            self.pending[0]@.prefetch_lookups(quality)
        } else {
            Seq::empty()
        }
    }

    /// The outcome of a lookup that was made to warm up the head of the queue
    /// is taken in by that track. A failure is dropped.
    pub open spec fn prefetched(self, resolution: Resolution) -> PlayerView {
        if self.pending.len() > 0 {
            PlayerView {
                pending: self.pending.update(
                    0,
                    Track::from_view(self.pending[0]@.resolve(resolution).0),
                ),
                ..self
            }
        } else {
            self
        }
    }

    /// One look at the sink's position while a track plays. A position that
    /// is not the start and has not moved since the last look means that the
    /// track is over: the player goes on to the next one. Else the position
    /// is taken over, and the display and the screen are told when it has
    /// reached another second.
    pub open spec fn tick(self, sink_position: TimeSpan) -> (PlayerView, Seq<Effect>) {
        if !self.playing {
            (self, Seq::empty())
        } else if sink_position != TimeSpan::spec_zero() && sink_position == self.position {
            let (after, effects) = self.next();
            (after, effects.push(Effect::Notify(AppEvent::ReRender)))
        } else {
            (
                PlayerView { position: sink_position, ..self },
                if sink_position.spec_whole_seconds() != self.position.spec_whole_seconds() {
                    seq![
                        Effect::Notify(AppEvent::ReRender),
                        Effect::ShowPlaying(Some(sink_position)),
                    ]
                } else {
                    Seq::empty()
                },
            )
        }
    }

    /// The transport command that a media event stands for.
    pub open spec fn dispatch(self, event: MediaEvent) -> (PlayerView, Seq<Effect>) {
        match event {
            MediaEvent::Play => self.play(),
            MediaEvent::Pause => self.pause(),
            MediaEvent::Next => self.next(),
            MediaEvent::Previous => self.prev(),
            MediaEvent::SetPosition(position) => self.set_position(position),
            MediaEvent::Other => (self, Seq::empty()),
        }
    }

    /// A media event is dispatched, and the screen is told.
    pub open spec fn handle_media_event(self, event: MediaEvent) -> (PlayerView, Seq<Effect>) {
        let (after, effects) = self.dispatch(event);
        (after, effects.push(Effect::Notify(AppEvent::ReRender)))
    }
}

} // verus!
