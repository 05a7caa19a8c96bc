use vstd::prelude::*;

use crate::models::image_ref::ImageRef;
use crate::models::GMusicListResponse;

verus! {

#[derive(Debug)]
pub struct GetAllTracksRequest;

pub type GetAllTracksResponse = GMusicListResponse<Track>;

#[derive(Debug, Clone)]
pub struct Track {
    pub id: String,
    pub title: String,
    pub artist: String,
    pub artist_id: Vec<String>,
    pub album_id: Option<String>,
    pub album: String,
    pub album_artist: Option<String>,
    pub track_number: u64,
    pub total_track_count: Option<u64>,
    pub duration_millis: String,
    pub album_art_ref: Vec<ImageRef>,
    pub artist_art_ref: Vec<ImageRef>,
    pub disk_number: Option<u64>,
    pub store_id: Option<String>,
    pub comment: Option<String>,
    pub year: Option<u64>,
    pub total_disc_count: Option<u64>,
    pub disc_number: Option<u64>,
    pub beats_per_minute: Option<u64>,
    pub genre: Option<String>,
    pub play_count: u64,
    pub rating: Option<TrackRating>,
}

#[derive(Debug, Clone, Copy)]
pub enum TrackRating {
    NotRated,
    Like,
    Dislike,
}

impl GetAllTracksRequest {
    pub fn new() -> GetAllTracksRequest {
        GetAllTracksRequest
    }
}

} // verus!
