//! Users and the tracks of their collections.

use crate::rtidalapi::track::{ResolutionError, Slot, Track, TrackView};
use crate::text::{decimal, to_decimal};
use vstd::prelude::*;

verus! {

/// What the service reports of a user.
#[derive(Clone, Debug, PartialEq, Eq)]
pub struct UserAttributes {
    pub username: String,
    pub country: String,
    pub email: String,
    pub email_verified: bool,
}

/// A user of the service, with the tracks of the user's collection once they
/// are looked up.
#[derive(Clone, Debug, PartialEq, Eq)]
pub struct User {
    pub id: String,
    pub attributes: UserAttributes,
    collection_tracks: Slot<Vec<Track>>,
}

/// A user as contracts speak of it.
pub struct UserView {
    pub id: String,
    pub attributes: UserAttributes,
    pub collection_tracks: Slot<Vec<Track>>,
}

/// Whether `tracks` are the tracks with the numbers `ids` as their ids, in
/// that order, with nothing looked up of any.
pub open spec fn tracks_of_ids(tracks: Seq<Track>, ids: Seq<u64>) -> bool {
    &&& tracks.len() == ids.len()
    &&& forall|i: int|
        0 <= i < ids.len() ==> {
            &&& (#[trigger] tracks[i])@ == TrackView::fresh(tracks[i]@.id)
            &&& tracks[i]@.id@ == decimal(ids[i] as nat)
        }
}

/// Returns the tracks with the given numbers as their ids.
pub fn tracks_from_ids(ids: &Vec<u64>) -> (tracks: Vec<Track>)
    ensures
        tracks_of_ids(tracks@, ids@),
{
    let mut tracks: Vec<Track> = Vec::new();
    let mut i: usize = 0;
    while i < ids.len()
        invariant
            i <= ids.len(),
            tracks_of_ids(tracks@, ids@.take(i as int)),
        decreases ids.len() - i,
    {
        match Track::new(to_decimal(ids[i])) {
            Ok(track) => {
                tracks.push(track);
            },
            Err(_) => {},
        }
        i += 1;
    }
    assert(ids@.take(i as int) =~= ids@);
    tracks
}

impl View for User {
    type V = UserView;

    closed spec fn view(&self) -> UserView {
        UserView {
            id: self.id,
            attributes: self.attributes,
            collection_tracks: self.collection_tracks,
        }
    }
}

impl User {
    /// Returns the logged-in user as the service reported it: the user with
    /// the given id and attributes, whose collection is not looked up yet.
    pub fn get_current_user(id: String, attributes: UserAttributes) -> (r: Result<User, String>)
        ensures
            r is Ok,
            r->Ok_0@ == (UserView { id, attributes, collection_tracks: Slot::Unresolved }),
    {
        Ok(User { id, attributes, collection_tracks: Slot::Unresolved })
    }

    /// Returns the tracks in the user's collection, if they are looked up.
    pub fn get_collection_tracks(&self) -> (r: Option<&Vec<Track>>)
        ensures
            match self@.collection_tracks {
                Slot::Resolved(tracks) => r is Some && *r->Some_0 == tracks,
                _ => r is None,
            },
    {
        match &self.collection_tracks {
            Slot::Resolved(tracks) => Some(tracks),
            _ => None,
        }
    }

    /// Takes in the outcome of looking up the user's collection: the numbers
    /// of its tracks, or the message of a failure. A collection that the
    /// user holds already is kept, and the outcome dropped. A failure is
    /// handed back and leaves the lookup open to another try.
    pub fn resolve_collection_tracks(&mut self, outcome: Result<Vec<u64>, String>) -> (r: Result<
        (),
        ResolutionError,
    >)
        ensures
            final(self)@.id == old(self)@.id,
            final(self)@.attributes == old(self)@.attributes,
            match (old(self)@.collection_tracks, outcome) {
                (Slot::Resolved(_), _) => r is Ok && final(self)@ == old(self)@,
                (_, Ok(ids)) => {
                    &&& r is Ok
                    &&& final(self)@.collection_tracks matches Slot::Resolved(tracks)
                    &&& tracks_of_ids(tracks@, ids@)
                },
                (_, Err(message)) => r == Err::<(), ResolutionError>(
                    ResolutionError::Failed(message),
                ) && final(self)@.collection_tracks == Slot::<Vec<Track>>::Failed,
            },
    {
        if matches!(self.collection_tracks, Slot::Resolved(_)) {
            return Ok(());
        }
        match outcome {
            Ok(ids) => {
                self.collection_tracks = Slot::Resolved(tracks_from_ids(&ids));
                Ok(())
            },
            Err(message) => {
                self.collection_tracks = Slot::Failed;
                Err(ResolutionError::Failed(message))
            },
        }
    }
}

} // verus!
