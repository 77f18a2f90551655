//! Artists.

use vstd::prelude::*;

verus! {

/// An artist of the service.
#[derive(Clone, Debug, PartialEq, Eq)]
pub struct Artist {
    pub id: String,
    pub attributes: ArtistAttributes,
}

/// What the service reports of an artist.
#[derive(Clone, Debug, PartialEq, Eq)]
pub struct ArtistAttributes {
    pub name: String,
}

impl Artist {
    /// Returns the artist with the given id and attributes.
    pub fn new(id: String, attributes: ArtistAttributes) -> (r: Result<Artist, String>)
        ensures
            r == Ok::<Artist, String>(Artist { id, attributes }),
    {
        Ok(Artist { id, attributes })
    }
}

} // verus!
