use vstd::prelude::*;

pub mod album;
pub mod all_playlists;
pub mod all_tracks;
pub mod artist;
pub mod device_management_info;
pub mod image_ref;
pub mod playlist_entries;
pub mod search_results;
pub mod shared_playlist_entries;

verus! {

/// The outer envelope common to list responses.
#[derive(Debug, Clone)]
pub struct GMusicResponse<T> {
    pub data: T,
    pub kind: String,
    pub next_page_token: Option<String>,
}

pub type GMusicListResponse<T> = GMusicResponse<GMusicList<T>>;

#[derive(Debug, Clone)]
pub struct GMusicList<T> {
    pub items: Vec<T>,
}

} // verus!
