//! Albums.

use crate::time::{duration_view, parse_duration, spec_parse_duration, TimeSpan};
use vstd::prelude::*;

verus! {

/// An album of the service.
#[derive(Clone, Debug, PartialEq, Eq)]
pub struct Album {
    pub id: String,
    pub attributes: AlbumAttributes,
    pub cover_art_url: String,
}

/// What the service reports of an album.
#[derive(Clone, Debug, PartialEq, Eq)]
pub struct AlbumAttributes {
    pub title: String,
    pub barcode_id: String,
    pub number_of_volumes: u32,
    pub number_of_items: u32,
    pub duration: String,
    pub explicit: bool,
    pub release_date: String,
    pub copyright: String,
    pub availability: Vec<String>,
    pub media_tags: Vec<String>,
}

impl Album {
    /// Returns the album with the given id, attributes and cover art.
    pub fn new(id: String, attributes: AlbumAttributes, cover_art_url: String) -> (r: Result<
        Album,
        String,
    >)
        ensures
            r == Ok::<Album, String>(Album { id, attributes, cover_art_url }),
    {
        Ok(Album { id, attributes, cover_art_url })
    }

    /// Returns the length of this album, read from its duration attribute.
    pub fn get_duration(&self) -> (r: Result<TimeSpan, String>)
        ensures
            duration_view(r) == spec_parse_duration(self.attributes.duration@),
    {
        parse_duration(self.attributes.duration.as_str())
    }
}

} // verus!
