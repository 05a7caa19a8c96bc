use vstd::prelude::*;

use crate::models::all_tracks::Track;
use crate::models::GMusicListResponse;

verus! {

pub type GetPlaylistEntriesResponse = GMusicListResponse<PlaylistEntry>;

#[derive(Debug, Clone)]
pub struct PlaylistEntry {
    pub kind: String,
    pub id: String,
    pub client_id: String,
    pub playlist_id: String,
    pub absolute_position: String,
    pub track_id: String,
    pub creation_timestamp: String,
    pub last_modified_timestamp: String,
    pub deleted: bool,
    pub source: String,
    pub track: Option<Track>,
}

#[derive(Debug, Clone)]
pub struct GetPlaylistEntriesRequest {
    pub start_token: Option<String>,
    pub max_results: Option<String>,
}

} // verus!
