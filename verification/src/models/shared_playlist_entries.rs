use vstd::prelude::*;

use crate::models::all_tracks::Track;
use crate::models::playlist_entries::GetPlaylistEntriesRequest;

verus! {

#[derive(Debug, Clone)]
pub struct SharedPlaylistEntriesResponse {
    pub kind: String,
    pub entries: Vec<SharedPlaylist>,
}

#[derive(Debug, Clone)]
pub struct SharedPlaylist {
    pub share_token: String,
    pub response_code: String,
    pub playlist_entry: Vec<SharedPlaylistEntry>,
}

#[derive(Debug, Clone)]
pub struct SharedPlaylistEntry {
    pub kind: String,
    pub id: String,
    pub absolute_position: String,
    pub track_id: String,
    pub creation_timestamp: String,
    pub last_modified_timestamp: String,
    pub deleted: bool,
    pub source: String,
    pub track: Option<Track>,
}

#[derive(Debug, Clone)]
pub struct SharedPlaylistContentsRequest {
    pub entries: Vec<SharedPlaylistContentsFilter>,
}

#[derive(Debug, Clone)]
pub struct SharedPlaylistContentsFilter {
    pub share_token: String,
    pub pages: GetPlaylistEntriesRequest,
}

} // verus!
