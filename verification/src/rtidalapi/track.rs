//! Tracks, and the cache of what has been looked up of each: attributes,
//! album, artist, and the address to stream from. The cache makes no lookup
//! itself; it says which lookup is due and takes the outcome in.

use crate::rtidalapi::album::Album;
use crate::rtidalapi::artist::Artist;
use crate::rtidalapi::AudioQuality;
use crate::time::{parse_duration, spec_parse_duration, TimeSpan};
use vstd::prelude::*;

verus! {

/// A field of a track that is filled by a lookup: not looked up yet, looked
/// up, or looked up in vain and open to another try.
#[derive(Clone, Debug, PartialEq, Eq)]
pub enum Slot<T> {
    Unresolved,
    Resolved(T),
    Failed,
}

/// A question to the service about one track.
#[derive(Clone, Copy, Debug, PartialEq, Eq, Structural)]
pub enum Lookup {
    /// The address from which the track streams at the given quality.
    Url(AudioQuality),
    Attributes,
    Album,
    Artist,
}

/// The service's answer to a lookup, or the message of its failure.
#[derive(Debug, PartialEq, Eq)]
pub enum Resolution {
    Url(AudioQuality, Result<String, String>),
    Attributes(Result<TrackAttributes, String>),
    Album(Result<Album, String>),
    Artist(Result<Artist, String>),
}

/// Why a track cannot give what was asked of it.
#[derive(Clone, Debug, PartialEq, Eq)]
pub enum ResolutionError {
    /// The track does not hold it: this lookup has to be made first.
    Missing(Lookup),
    /// The lookup was made and failed with this message.
    Failed(String),
}

/// What the service reports of a track.
#[derive(Clone, Debug, PartialEq, Eq)]
pub struct TrackAttributes {
    pub title: String,
    pub version: String,
    pub isrc: String,
    pub duration: String,
    pub copyright: String,
    pub explicit: bool,
    pub availability: Vec<String>,
    pub media_tags: Vec<String>,
}

/// A streaming address together with the quality that it was issued for.
#[derive(Clone, Debug, PartialEq, Eq)]
pub struct CachedUrl {
    pub url: String,
    pub quality: AudioQuality,
}

/// A track of the service: its id, and what has been looked up of it.
#[derive(Clone, Debug, PartialEq, Eq)]
pub struct Track {
    pub id: String,
    attributes: Slot<TrackAttributes>,
    album: Slot<Album>,
    artist: Slot<Artist>,
    url: Slot<CachedUrl>,
}

/// A track as contracts speak of it.
pub struct TrackView {
    pub id: String,
    pub attributes: Slot<TrackAttributes>,
    pub album: Slot<Album>,
    pub artist: Slot<Artist>,
    pub url: Slot<CachedUrl>,
}

/// What becomes of a slot, and what the caller is told, when the outcome of a
/// lookup arrives: a filled slot stays as it is, an answer fills the slot, a
/// failure is passed on and fills nothing.
pub open spec fn fill<T>(slot: Slot<T>, outcome: Result<T, String>) -> (Slot<T>, Result<
    (),
    ResolutionError,
>) {
    match slot {
        Slot::Resolved(_) => (slot, Ok(())),
        _ => match outcome {
            Ok(value) => (Slot::Resolved(value), Ok(())),
            Err(message) => (Slot::Failed, Err(ResolutionError::Failed(message))),
        },
    }
}

impl TrackView {
    /// The track with this id of which nothing has been looked up.
    pub open spec fn fresh(id: String) -> TrackView {
        TrackView {
            id,
            attributes: Slot::Unresolved,
            album: Slot::Unresolved,
            artist: Slot::Unresolved,
            url: Slot::Unresolved,
        }
    }

    /// Whether attributes, album and artist are all looked up.
    pub open spec fn has_info(self) -> bool {
        self.attributes is Resolved && self.album is Resolved && self.artist is Resolved
    }

    /// Whether the track holds a streaming address issued for `quality`.
    pub open spec fn has_url(self, quality: AudioQuality) -> bool {
        self.url matches Slot::Resolved(cached) && cached.quality == quality
    }

    /// Whether the track holds the answer to `lookup`.
    pub open spec fn holds(self, lookup: Lookup) -> bool {
        match lookup {
            Lookup::Url(quality) => self.has_url(quality),
            Lookup::Attributes => self.attributes is Resolved,
            Lookup::Album => self.album is Resolved,
            Lookup::Artist => self.artist is Resolved,
        }
    }

    /// The first lookup that is still to be made before the track can play
    /// at `quality`: the address, the attributes, the album, the artist.
    pub open spec fn pending_lookup(self, quality: AudioQuality) -> Option<Lookup> {
        if !self.has_url(quality) {
            Some(Lookup::Url(quality))
        } else if !(self.attributes is Resolved) {
            Some(Lookup::Attributes)
        } else if !(self.album is Resolved) {
            Some(Lookup::Album)
        } else if !(self.artist is Resolved) {
            Some(Lookup::Artist)
        } else {
            None
        }
    }

    /// The lookups that warm the track up for playing at `quality`: those
    /// whose answer it does not hold, the attributes first, the address last.
    pub open spec fn prefetch_lookups(self, quality: AudioQuality) -> Seq<Lookup> {
        let attributes = if self.attributes is Resolved {
            Seq::<Lookup>::empty()
        } else {
            seq![Lookup::Attributes]
        };
        let album = if self.album is Resolved {
            Seq::<Lookup>::empty()
        } else {
            seq![Lookup::Album]
        };
        let artist = if self.artist is Resolved {
            Seq::<Lookup>::empty()
        } else {
            seq![Lookup::Artist]
        };
        let url = if self.has_url(quality) {
            Seq::<Lookup>::empty()
        } else {
            seq![Lookup::Url(quality)]
        };
        attributes + album + artist + url
    }

    /// The lookups that bring the info which the track does not hold: the
    /// attributes, the artist, the album.
    pub open spec fn info_lookups(self) -> Seq<Lookup> {
        let attributes = if self.attributes is Resolved {
            Seq::<Lookup>::empty()
        } else {
            seq![Lookup::Attributes]
        };
        let artist = if self.artist is Resolved {
            Seq::<Lookup>::empty()
        } else {
            seq![Lookup::Artist]
        };
        let album = if self.album is Resolved {
            Seq::<Lookup>::empty()
        } else {
            seq![Lookup::Album]
        };
        attributes + artist + album
    }

    /// The track once the outcome of a lookup has arrived, and what the
    /// caller is told. An address is kept with the quality that it was issued
    /// for and gives way only to an address for another quality; a failed
    /// lookup leaves an address that the track holds in place.
    pub open spec fn resolve(self, resolution: Resolution) -> (TrackView, Result<
        (),
        ResolutionError,
    >) {
        match resolution {
            Resolution::Attributes(outcome) => {
                let (slot, told) = fill(self.attributes, outcome);
                (TrackView { attributes: slot, ..self }, told)
            },
            Resolution::Album(outcome) => {
                let (slot, told) = fill(self.album, outcome);
                (TrackView { album: slot, ..self }, told)
            },
            Resolution::Artist(outcome) => {
                let (slot, told) = fill(self.artist, outcome);
                (TrackView { artist: slot, ..self }, told)
            },
            Resolution::Url(quality, outcome) => {
                if self.has_url(quality) {
                    (self, Ok(()))
                } else {
                    match outcome {
                        Ok(url) => (
                            TrackView { url: Slot::Resolved(CachedUrl { url, quality }), ..self },
                            Ok(()),
                        ),
                        Err(message) => (
                            TrackView {
                                url: if self.url is Resolved {
                                    self.url
                                } else {
                                    Slot::Failed
                                },
                                ..self
                            },
                            Err(ResolutionError::Failed(message)),
                        ),
                    }
                }
            },
        }
    }
}

impl View for Track {
    type V = TrackView;

    closed spec fn view(&self) -> TrackView {
        TrackView {
            id: self.id,
            attributes: self.attributes,
            album: self.album,
            artist: self.artist,
            url: self.url,
        }
    }
}

impl Track {
    /// The track that contracts see as `view`.
    pub closed spec fn from_view(view: TrackView) -> Track {
        Track {
            id: view.id,
            attributes: view.attributes,
            album: view.album,
            artist: view.artist,
            url: view.url,
        }
    }

    /// A track is what contracts see of it, no more.
    pub proof fn lemma_from_view(self)
        ensures
            Track::from_view(self@) == self,
    {
    }

    /// Contracts see of `Track::from_view(view)` what it was made from.
    pub proof fn lemma_view_of(view: TrackView)
        ensures
            Track::from_view(view)@ == view,
    {
    }
}

/// A slot that is filled stays as it is, whatever arrives: each field is
/// looked up with success at most once.
pub proof fn law_filled_slot_stays<T>(slot: Slot<T>, outcome: Result<T, String>)
    requires
        slot is Resolved,
    ensures
        fill(slot, outcome) == (slot, Ok::<(), ResolutionError>(())),
{
}

/// A failed lookup is not kept: the caller is told, the lookup stays open,
/// and an answer that arrives later fills the slot.
pub proof fn law_failure_is_retried<T>(slot: Slot<T>, message: String, value: T)
    requires
        !(slot is Resolved),
    ensures
        fill(slot, Err(message)).1 == Err::<(), ResolutionError>(ResolutionError::Failed(message)),
        !(fill(slot, Err(message)).0 is Resolved),
        fill(fill(slot, Err(message)).0, Ok(value)).0 == Slot::Resolved(value),
{
}

/// The outcome of a lookup changes nothing but the slot that it is for, and
/// never the id.
pub proof fn law_resolve_keeps_the_rest(track: TrackView, resolution: Resolution)
    ensures
        track.resolve(resolution).0.id == track.id,
        !(resolution is Attributes) ==> track.resolve(resolution).0.attributes == track.attributes,
        !(resolution is Album) ==> track.resolve(resolution).0.album == track.album,
        !(resolution is Artist) ==> track.resolve(resolution).0.artist == track.artist,
        !(resolution is Url) ==> track.resolve(resolution).0.url == track.url,
{
}

/// An answer settles its lookup: the track holds it from then on, and the
/// lookups that playing still waits for get fewer.
pub proof fn law_answer_settles_lookup(track: TrackView, quality: AudioQuality, url: String)
    ensures
        track.resolve(Resolution::Url(quality, Ok(url))).0.holds(Lookup::Url(quality)),
        track.resolve(Resolution::Url(quality, Ok(url))).1 is Ok,
{
}

/// The address follows the quality. Once an address is looked up for quality
/// `a`, asking at `a` needs no lookup and asking at another quality `b` needs
/// one. Once that one is answered, asking at `b` needs none, the address is
/// the one that was issued for `b`, and an answer that arrives again for `b`
/// changes nothing.
pub proof fn law_url_follows_quality(
    track: TrackView,
    a: AudioQuality,
    b: AudioQuality,
    first: String,
    second: String,
    third: String,
)
    requires
        a != b,
    ensures
        ({
            let at_a = track.resolve(Resolution::Url(a, Ok(first))).0;
            let at_b = at_a.resolve(Resolution::Url(b, Ok(second))).0;
            &&& at_a.has_url(a)
            &&& !at_a.has_url(b)
            &&& at_a.pending_lookup(b) == Some(Lookup::Url(b))
            &&& at_b.has_url(b)
            &&& !at_b.has_url(a)
            &&& at_b.url == Slot::Resolved(CachedUrl { url: second, quality: b })
            &&& at_b.resolve(Resolution::Url(b, Ok(third))) == (at_b, Ok::<(), ResolutionError>(()))
        }),
{
}

/// Whether `resolution` is an outcome of the lookup `lookup`.
pub open spec fn answers(resolution: Resolution, lookup: Lookup) -> bool {
    match lookup {
        Lookup::Url(quality) => resolution is Url && resolution->Url_0 == quality,
        Lookup::Attributes => resolution is Attributes,
        Lookup::Album => resolution is Album,
        Lookup::Artist => resolution is Artist,
    }
}

/// Whether `resolution` holds an answer, not a failure.
pub open spec fn is_answer(resolution: Resolution) -> bool {
    match resolution {
        Resolution::Url(_, outcome) => outcome is Ok,
        Resolution::Attributes(outcome) => outcome is Ok,
        Resolution::Album(outcome) => outcome is Ok,
        Resolution::Artist(outcome) => outcome is Ok,
    }
}

/// Making a track ready takes no more than four lookups: an answer to the
/// lookup that the track waits for is kept, and leaves one lookup fewer to
/// make.
pub proof fn law_lookups_run_out(
    track: TrackView,
    quality: AudioQuality,
    lookup: Lookup,
    resolution: Resolution,
)
    requires
        track.pending_lookup(quality) == Some(lookup),
        answers(resolution, lookup),
        is_answer(resolution),
    ensures
        track.resolve(resolution).1 is Ok,
        track.resolve(resolution).0.holds(lookup),
        track.resolve(resolution).0.pending_lookup(quality) != Some(lookup),
        track.resolve(resolution).0.prefetch_lookups(quality).len() == track.prefetch_lookups(
            quality,
        ).len() - 1,
        track.prefetch_lookups(quality).len() <= 4,
{
}

/// A track is ready to play at a quality exactly when no lookup is pending:
/// it holds the address for that quality and its info.
pub proof fn law_pending_lookup(track: TrackView, quality: AudioQuality)
    ensures
        track.pending_lookup(quality) is None <==> track.has_url(quality) && track.has_info(),
        track.pending_lookup(quality) matches Some(lookup) ==> !track.holds(lookup),
        track.prefetch_lookups(quality).len() == 0 <==> track.pending_lookup(quality) is None,
        track.info_lookups().len() == 0 <==> track.has_info(),
{
}

/// Takes in the outcome of a lookup for one slot.
fn fill_slot<T>(slot: &mut Slot<T>, outcome: Result<T, String>) -> (r: Result<(), ResolutionError>)
    ensures
        (*final(slot), r) == fill(*old(slot), outcome),
{
    match slot {
        Slot::Resolved(_) => Ok(()),
        _ => match outcome {
            Ok(value) => {
                *slot = Slot::Resolved(value);
                Ok(())
            },
            Err(message) => {
                *slot = Slot::Failed;
                Err(ResolutionError::Failed(message))
            },
        },
    }
}

impl Track {
    /// Returns the track with the given id, of which nothing is looked up yet.
    pub fn new(id: String) -> (r: Result<Track, String>)
        ensures
            r is Ok,
            r->Ok_0@ == TrackView::fresh(id),
    {
        Ok(
            Track {
                id,
                attributes: Slot::Unresolved,
                album: Slot::Unresolved,
                artist: Slot::Unresolved,
                url: Slot::Unresolved,
            },
        )
    }

    /// Returns the id of this track.
    pub fn id(&self) -> (r: &String)
        ensures
            *r == self@.id,
    {
        &self.id
    }

    /// Returns the attributes of this track, or the lookup that brings them.
    pub fn get_attribtues(&self) -> (r: Result<&TrackAttributes, ResolutionError>)
        ensures
            match self@.attributes {
                Slot::Resolved(attributes) => r is Ok && *r->Ok_0 == attributes,
                _ => r == Err::<&TrackAttributes, ResolutionError>(
                    ResolutionError::Missing(Lookup::Attributes),
                ),
            },
    {
        match &self.attributes {
            Slot::Resolved(attributes) => Ok(attributes),
            _ => Err(ResolutionError::Missing(Lookup::Attributes)),
        }
    }

    /// Returns the album of this track, or the lookup that brings it.
    pub fn get_album(&self) -> (r: Result<&Album, ResolutionError>)
        ensures
            match self@.album {
                Slot::Resolved(album) => r is Ok && *r->Ok_0 == album,
                _ => r == Err::<&Album, ResolutionError>(ResolutionError::Missing(Lookup::Album)),
            },
    {
        match &self.album {
            Slot::Resolved(album) => Ok(album),
            _ => Err(ResolutionError::Missing(Lookup::Album)),
        }
    }

    /// Returns the artist of this track, or the lookup that brings it.
    pub fn get_artist(&self) -> (r: Result<&Artist, ResolutionError>)
        ensures
            match self@.artist {
                Slot::Resolved(artist) => r is Ok && *r->Ok_0 == artist,
                _ => r == Err::<&Artist, ResolutionError>(
                    ResolutionError::Missing(Lookup::Artist),
                ),
            },
    {
        match &self.artist {
            Slot::Resolved(artist) => Ok(artist),
            _ => Err(ResolutionError::Missing(Lookup::Artist)),
        }
    }

    /// Returns true if attributes, album and artist of this track are all
    /// looked up.
    pub fn has_info(&self) -> (r: bool)
        ensures
            r == self@.has_info(),
    {
        matches!(self.attributes, Slot::Resolved(_)) && matches!(self.album, Slot::Resolved(_))
            && matches!(self.artist, Slot::Resolved(_))
    }

    /// Returns the length of this track, read from the duration attribute.
    pub fn get_duration(&self) -> (r: Result<TimeSpan, ResolutionError>)
        ensures
            match self@.attributes {
                Slot::Resolved(attributes) => match spec_parse_duration(attributes.duration@) {
                    Ok(span) => r == Ok::<TimeSpan, ResolutionError>(span),
                    Err(message) => r matches Err(ResolutionError::Failed(m)) && m@ == message,
                },
                _ => r == Err::<TimeSpan, ResolutionError>(
                    ResolutionError::Missing(Lookup::Attributes),
                ),
            },
    {
        match &self.attributes {
            Slot::Resolved(attributes) => match parse_duration(attributes.duration.as_str()) {
                Ok(span) => Ok(span),
                Err(message) => Err(ResolutionError::Failed(message)),
            },
            _ => Err(ResolutionError::Missing(Lookup::Attributes)),
        }
    }

    /// Returns the address from which this track streams at `quality`, or
    /// the lookup that brings it. An address that was issued for another
    /// quality does not count.
    pub fn get_url(&self, quality: AudioQuality) -> (r: Result<String, ResolutionError>)
        ensures
            match self@.url {
                Slot::Resolved(cached) if cached.quality == quality => r == Ok::<
                    String,
                    ResolutionError,
                >(cached.url),
                _ => r == Err::<String, ResolutionError>(
                    ResolutionError::Missing(Lookup::Url(quality)),
                ),
            },
    {
        match &self.url {
            Slot::Resolved(cached) if cached.quality == quality => Ok(cached.url.clone()),
            _ => Err(ResolutionError::Missing(Lookup::Url(quality))),
        }
    }

    /// Whether this track holds a streaming address issued for `quality`.
    pub fn has_url(&self, quality: AudioQuality) -> (r: bool)
        ensures
            r == self@.has_url(quality),
    {
        match &self.url {
            Slot::Resolved(cached) => cached.quality == quality,
            _ => false,
        }
    }

    /// Returns the first lookup that is still to be made before this track
    /// can play at `quality`, if there is one.
    pub fn pending_lookup(&self, quality: AudioQuality) -> (r: Option<Lookup>)
        ensures
            r == self@.pending_lookup(quality),
    {
        if !self.has_url(quality) {
            Some(Lookup::Url(quality))
        } else if !matches!(self.attributes, Slot::Resolved(_)) {
            Some(Lookup::Attributes)
        } else if !matches!(self.album, Slot::Resolved(_)) {
            Some(Lookup::Album)
        } else if !matches!(self.artist, Slot::Resolved(_)) {
            Some(Lookup::Artist)
        } else {
            None
        }
    }

    /// Returns the lookups that warm this track up for playing at `quality`.
    pub fn prefetch_lookups(&self, quality: AudioQuality) -> (r: Vec<Lookup>)
        ensures
            r@ == self@.prefetch_lookups(quality),
    {
        let mut lookups: Vec<Lookup> = Vec::new();
        if !matches!(self.attributes, Slot::Resolved(_)) {
            lookups.push(Lookup::Attributes);
        }
        if !matches!(self.album, Slot::Resolved(_)) {
            lookups.push(Lookup::Album);
        }
        if !matches!(self.artist, Slot::Resolved(_)) {
            lookups.push(Lookup::Artist);
        }
        if !self.has_url(quality) {
            lookups.push(Lookup::Url(quality));
        }
        assert(lookups@ =~= self@.prefetch_lookups(quality));
        lookups
    }

    /// Returns the lookups that bring the info which this track does not
    /// hold yet.
    pub fn info_lookups(&self) -> (r: Vec<Lookup>)
        ensures
            r@ == self@.info_lookups(),
    {
        let mut lookups: Vec<Lookup> = Vec::new();
        if !matches!(self.attributes, Slot::Resolved(_)) {
            lookups.push(Lookup::Attributes);
        }
        if !matches!(self.artist, Slot::Resolved(_)) {
            lookups.push(Lookup::Artist);
        }
        if !matches!(self.album, Slot::Resolved(_)) {
            lookups.push(Lookup::Album);
        }
        assert(lookups@ =~= self@.info_lookups());
        lookups
    }

    /// Takes in the outcome of a lookup. What this track holds already is
    /// kept, and the outcome dropped; an answer is stored; a failure is
    /// handed back, stores nothing and leaves the lookup open to another try.
    pub fn resolve(&mut self, resolution: Resolution) -> (r: Result<(), ResolutionError>)
        ensures
            (final(self)@, r) == old(self)@.resolve(resolution),
    {
        match resolution {
            Resolution::Attributes(outcome) => fill_slot(&mut self.attributes, outcome),
            Resolution::Album(outcome) => fill_slot(&mut self.album, outcome),
            Resolution::Artist(outcome) => fill_slot(&mut self.artist, outcome),
            Resolution::Url(quality, outcome) => {
                if self.has_url(quality) {
                    Ok(())
                } else {
                    match outcome {
                        Ok(url) => {
                            self.url = Slot::Resolved(CachedUrl { url, quality });
                            Ok(())
                        },
                        Err(message) => {
                            if !matches!(self.url, Slot::Resolved(_)) {
                                self.url = Slot::Failed;
                            }
                            Err(ResolutionError::Failed(message))
                        },
                    }
                }
            },
        }
    }
}

} // verus!
