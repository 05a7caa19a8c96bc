use vstd::prelude::*;

use crate::models::album::Album;
use crate::models::all_tracks::Track;
use crate::models::image_ref::ImageRef;

verus! {

#[derive(Debug, Clone)]
pub struct Artist {
    pub id: String,
    pub kind: String,
    pub name: String,
    pub artist_art_ref: Option<String>,
    pub artist_art_refs: Vec<ImageRef>,
    pub artist_bio: Option<String>,
    pub albums: Vec<Album>,
    pub top_tracks: Vec<Track>,
    pub total_albums: Option<u64>,
}

} // verus!
