use vstd::prelude::*;

pub mod all_playlists;
pub mod all_tracks;
pub mod device_management_info;
pub mod get_all_tracks;
pub mod image_ref;
pub mod login;
pub mod oauth;
pub mod playlist_entries;
pub mod settings;

verus! {

#[derive(Debug, Clone)]
pub struct GMusicResponse<T> {
    pub data: T,
    pub kind: String,
}

pub type GMusicListResponse<T> = GMusicResponse<GMusicList<T>>;

#[derive(Debug, Clone)]
pub struct GMusicList<T> {
    pub items: Vec<T>,
}

} // verus!
