use vstd::prelude::*;

use crate::http::GMusicListResponse;

verus! {

#[derive(Debug)]
pub struct GetAllTracksRequest;

pub type GetAllTracksResponse = GMusicListResponse<Track>;

#[derive(Debug, Clone)]
pub struct Track {
    pub id: String,
    pub title: String,
    pub artist: String,
    pub album: String,
}

impl GetAllTracksRequest {
    pub fn new() -> GetAllTracksRequest {
        GetAllTracksRequest
    }
}

} // verus!
