use vstd::prelude::*;

use crate::models::all_tracks::Track;

verus! {

#[derive(Debug, Clone)]
pub struct Album {
    pub id: String,
    pub kind: String,
    pub name: String,
    pub album_artist: String,
    pub album_art_ref: Option<String>,
    pub artist: String,
    pub artist_id: Vec<String>,
    pub year: Option<u64>,
    pub tracks: Vec<Track>,
    pub description: Option<String>,
    /// `"1"` means explicit, `"2"` means not.
    pub explicit_type: String,
    pub content_type: Option<String>,
}

} // verus!
