//! What the music service knows of a track, and how much of it has been
//! looked up so far.

use vstd::prelude::*;

pub mod album;
pub mod artist;
pub mod track;
pub mod user;

pub use album::Album;
pub use artist::Artist;
pub use track::Track;
pub use user::User;

verus! {

/// Audio quality options of the service.
#[derive(Clone, Copy, Debug, PartialEq, Eq, Structural)]
pub enum AudioQuality {
    /// 96 kbps
    Low96,
    /// 320 kbps
    Low320,
    /// 16-bit, 44.1 kHz
    High,
}

impl AudioQuality {
    /// The word by which the service's own client library knows this quality.
    pub open spec fn spec_tidalapi_string(self) -> Seq<char> {
        match self {
            AudioQuality::Low96 => "LOW"@,
            AudioQuality::Low320 => "HIGH"@,
            AudioQuality::High => "LOSSLESS"@,
        }
    }

    /// The name of this quality as the service's applications show it.
    pub open spec fn spec_to_string(self) -> Seq<char> {
        match self {
            AudioQuality::Low96 => "Low (96 kbps)"@,
            AudioQuality::Low320 => "Low (320 kbps)"@,
            AudioQuality::High => "High"@,
        }
    }

    /// Returns the word by which the service's own client library knows this
    /// quality.
    pub fn to_tidalapi_string(&self) -> (r: String)
        ensures
            r@ == self.spec_tidalapi_string(),
    {
        match self {
            AudioQuality::Low96 => "LOW".to_owned(),
            AudioQuality::Low320 => "HIGH".to_owned(),
            AudioQuality::High => "LOSSLESS".to_owned(),
        }
    }

    /// Returns the name of this quality as the service's applications show it.
    pub fn to_string(&self) -> (r: String)
        ensures
            r@ == self.spec_to_string(),
    {
        match self {
            AudioQuality::Low96 => "Low (96 kbps)".to_owned(),
            AudioQuality::Low320 => "Low (320 kbps)".to_owned(),
            AudioQuality::High => "High".to_owned(),
        }
    }
}

} // verus!
