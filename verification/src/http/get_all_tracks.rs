use vstd::prelude::*;

verus! {

#[derive(Debug)]
pub struct GetAllTracksRequest {
    pub limit: u32,
}

#[derive(Debug)]
pub struct GetAllTracksResponse {
    pub kind: String,
    pub next_page_token: String,
    pub data: GetAllTracksData,
}

#[derive(Debug)]
pub struct GetAllTracksData {
    pub items: Vec<Track>,
}

#[derive(Debug)]
pub struct Track {
    pub id: String,
    pub title: String,
    pub artist: String,
    pub album: String,
}

impl GetAllTracksRequest {
    pub fn new(limit: u32) -> (r: GetAllTracksRequest)
        ensures
            r.limit == limit,
    {
        GetAllTracksRequest { limit }
    }
}

} // verus!
