use gmusic::api::{
    album_request, all_playlists_request, all_tracks_request, default_params,
    device_management_info_request, is_store_id, normalize_entries, playlist_entries_page_request,
    prepare, search_request, store_track_request, stream_request, Headers, Method,
};
use gmusic::models::all_tracks::Track;
use gmusic::models::playlist_entries::PlaylistEntry;

fn pairs(v: &[(String, String)]) -> Vec<(&str, &str)> {
    v.iter().map(|p| (p.0.as_str(), p.1.as_str())).collect()
}

const DEFAULTS: [(&str, &str); 3] = [("dv", "0"), ("hl", "en_US"), ("tier", "aa")];

#[test]
fn default_params_are_the_three_fixed_ones() {
    let params = default_params();
    assert_eq!(pairs(&params), DEFAULTS.to_vec());
}

#[test]
fn prepare_prepends_defaults_to_caller_params() {
    let extra = Headers::new().append("q", "hello").append("ic", "true");
    let req = prepare(
        Method::Get,
        "https://example.invalid/x".to_owned(),
        Headers::new(),
        extra,
    );
    assert_eq!(
        pairs(&req.params),
        vec![("dv", "0"), ("hl", "en_US"), ("tier", "aa"), ("q", "hello"), ("ic", "true")]
    );
    assert!(req.headers.is_empty());
    assert_eq!(req.url, "https://example.invalid/x");
}

#[test]
fn feed_requests_hit_their_endpoints() {
    let tracks = all_tracks_request();
    assert_eq!(tracks.method, Method::Post);
    assert_eq!(tracks.url, "https://mclients.googleapis.com/sj/v2.5/trackfeed");
    assert_eq!(pairs(&tracks.params), DEFAULTS.to_vec());

    let playlists = all_playlists_request();
    assert_eq!(playlists.method, Method::Post);
    assert_eq!(playlists.url, "https://mclients.googleapis.com/sj/v2.5/playlistfeed");

    let devices = device_management_info_request();
    assert_eq!(devices.method, Method::Get);
    assert_eq!(devices.url, "https://mclients.googleapis.com/sj/v2.5/devicemanagementinfo");
}

#[test]
fn playlist_entries_page_request_carries_cursor_and_page_size() {
    let (req, body) = playlist_entries_page_request(None);
    assert_eq!(req.method, Method::Post);
    assert_eq!(req.url, "https://mclients.googleapis.com/sj/v2.5/plentryfeed");
    assert_eq!(body.max_results.as_deref(), Some("20000"));
    assert!(body.start_token.is_none());

    let (_, body2) = playlist_entries_page_request(Some("CURSOR".to_owned()));
    assert_eq!(body2.start_token.as_deref(), Some("CURSOR"));
}

#[test]
fn store_track_request_rejects_non_store_ids() {
    assert!(is_store_id("T123"));
    assert!(!is_store_id("x123"));
    assert!(!is_store_id(""));

    assert!(store_track_request("x123").is_none());
    let req = store_track_request("T123").unwrap();
    assert_eq!(req.method, Method::Get);
    assert_eq!(req.url, "https://mclients.googleapis.com/sj/v2.5/fetchtrack");
    assert_eq!(
        pairs(&req.params),
        vec![("dv", "0"), ("hl", "en_US"), ("tier", "aa"), ("alt", "json"), ("nid", "T123")]
    );
}

#[test]
fn album_and_artist_requests_have_exact_params() {
    let album = album_request("B456");
    assert_eq!(album.url, "https://mclients.googleapis.com/sj/v2.5/fetchalbum");
    assert_eq!(
        pairs(&album.params),
        vec![
            ("dv", "0"),
            ("hl", "en_US"),
            ("tier", "aa"),
            ("alt", "json"),
            ("nid", "B456"),
            ("include-tracks", "true"),
        ]
    );

    let artist = gmusic::api::artist_request("A789");
    assert_eq!(artist.url, "https://mclients.googleapis.com/sj/v2.5/fetchartist");
    assert_eq!(
        pairs(&artist.params),
        vec![
            ("dv", "0"),
            ("hl", "en_US"),
            ("tier", "aa"),
            ("alt", "json"),
            ("nid", "A789"),
            ("include-albums", "true"),
            ("num-top-tracks", "20"),
        ]
    );
}

#[test]
fn search_request_defaults_to_fifty_results() {
    let req = search_request("freddie", None);
    assert_eq!(req.url, "https://mclients.googleapis.com/sj/v2.5/query");
    assert_eq!(
        pairs(&req.params),
        vec![
            ("dv", "0"),
            ("hl", "en_US"),
            ("tier", "aa"),
            ("ct", "1,2,3,4,5,6,7,8,9"),
            ("ic", "true"),
            ("q", "freddie"),
            ("max-results", "50"),
        ]
    );

    let capped = search_request("freddie", Some(10));
    assert_eq!(pairs(&capped.params).last().unwrap(), &("max-results", "10"));
}

#[test]
fn stream_request_picks_the_identifier_parameter_by_prefix() {
    let store = stream_request("T1", "dev-1", "SIG", "SALT");
    assert_eq!(store.method, Method::Get);
    assert_eq!(store.url, "https://mclients.googleapis.com/music/mplay");
    assert_eq!(pairs(&store.headers), vec![("X-Device-ID", "dev-1")]);
    assert_eq!(
        pairs(&store.params),
        vec![
            ("dv", "0"),
            ("hl", "en_US"),
            ("tier", "aa"),
            ("opt", "hi"),
            ("net", "mob"),
            ("pt", "e"),
            ("slt", "SALT"),
            ("sig", "SIG"),
            ("mjck", "T1"),
        ]
    );

    let library = stream_request("uuid-1", "dev-1", "SIG", "SALT");
    assert_eq!(pairs(&library.params).last().unwrap(), &("songid", "uuid-1"));
}

fn sample_track(id: &str) -> Track {
    Track {
        id: id.to_owned(),
        title: "Title".to_owned(),
        artist: "Artist".to_owned(),
        artist_id: vec!["AR1".to_owned()],
        album_id: Some("AL1".to_owned()),
        album: "Album".to_owned(),
        album_artist: None,
        track_number: 3,
        total_track_count: Some(12),
        duration_millis: "180000".to_owned(),
        album_art_ref: Vec::new(),
        artist_art_ref: Vec::new(),
        disk_number: Some(1),
        store_id: None,
        comment: None,
        year: Some(2001),
        total_disc_count: None,
        disc_number: None,
        beats_per_minute: None,
        genre: None,
        play_count: 9,
        rating: None,
    }
}

fn sample_entry(entry_id: &str, track_id: &str, track: Option<Track>) -> PlaylistEntry {
    PlaylistEntry {
        kind: "sj#playlistEntry".to_owned(),
        id: entry_id.to_owned(),
        client_id: "client".to_owned(),
        playlist_id: "pl".to_owned(),
        absolute_position: "0".to_owned(),
        track_id: track_id.to_owned(),
        creation_timestamp: "1".to_owned(),
        last_modified_timestamp: "2".to_owned(),
        deleted: false,
        source: "2".to_owned(),
        track,
    }
}

#[test]
fn normalization_overwrites_the_nested_track_identifier() {
    // An entry whose nested track has the empty identifier and whose own
    // track identifier is "E9" surfaces a track whose identifier is "E9".
    let entries = vec![
        sample_entry("entry-1", "E9", Some(sample_track(""))),
        sample_entry("entry-2", "E10", None),
    ];
    let normalized = normalize_entries(entries);
    assert_eq!(normalized.len(), 2);
    let surfaced = normalized[0].track.as_ref().unwrap();
    assert_eq!(surfaced.id, "E9");
    // The rest of the track and of the entry is untouched.
    assert_eq!(surfaced.title, "Title");
    assert_eq!(surfaced.play_count, 9);
    assert_eq!(normalized[0].id, "entry-1");
    assert_eq!(normalized[0].track_id, "E9");
    assert!(normalized[1].track.is_none());
    assert_eq!(normalized[1].track_id, "E10");
}
