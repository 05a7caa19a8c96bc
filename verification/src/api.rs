use vstd::prelude::*;

use crate::error::Error;
use crate::models::all_tracks::Track;
use crate::models::playlist_entries::{GetPlaylistEntriesRequest, PlaylistEntry};
use crate::text::{ascii_chars, dec_digits, decimal_string};
use crate::token::{AuthToken, Token};
use vstd::string::{StrSliceExecFns, StringExecFns};

verus! {

/// The key and value views of a parameter or header list.
pub open spec fn kv_views(s: Seq<(String, String)>) -> Seq<(Seq<char>, Seq<char>)> {
    s.map_values(|p: (String, String)| (p.0@, p.1@))
}

/// The immutable client identifier/secret pair used to configure the OAuth
/// gateway.
pub struct Credentials {
    pub id: String,
    pub secret: String,
}

impl Credentials {
    pub fn new(id: String, secret: String) -> (r: Credentials)
        ensures
            r.id == id,
            r.secret == secret,
    {
        Credentials { id, secret }
    }
}

/// An ordered list of key/value pairs, used for both query parameters and
/// request headers.
pub struct Headers(pub Vec<(String, String)>);

impl Headers {
    pub fn new() -> (r: Headers)
        ensures
            r.0@.len() == 0,
    {
        Headers(Vec::new())
    }

    pub fn append(self, key: &str, value: &str) -> (r: Headers)
        ensures
            kv_views(r.0@) == kv_views(self.0@).push((key@, value@)),
    {
        let ghost orig = self.0@;
        let mut pairs = self.0;
        pairs.push((key.to_owned(), value.to_owned()));
        proof {
            assert(kv_views(pairs@) =~= kv_views(orig).push((key@, value@)));
        }
        Headers(pairs)
    }

    pub fn into_inner(self) -> (r: Vec<(String, String)>)
        ensures
            r == self.0,
    {
        self.0
    }
}

#[derive(Debug, Clone, Copy, PartialEq, Eq)]
pub enum Method {
    Get,
    Post,
}

/// A request ready to hand to the HTTP transport: the query parameters hold
/// the three fixed defaults followed by the call-specific ones.
pub struct PreparedRequest {
    pub method: Method,
    pub url: String,
    pub headers: Vec<(String, String)>,
    pub params: Vec<(String, String)>,
}

/// The three fixed query parameters that every request carries: the
/// device-version flag, the locale, and the tier.
pub open spec fn default_param_views() -> Seq<(Seq<char>, Seq<char>)> {
    seq![("dv"@, "0"@), ("hl"@, "en_US"@), ("tier"@, "aa"@)]
}

pub fn default_params() -> (r: Vec<(String, String)>)
    ensures
        kv_views(r@) == default_param_views(),
{
    let mut pairs: Vec<(String, String)> = Vec::new();
    pairs.push(("dv".to_owned(), "0".to_owned()));
    pairs.push(("hl".to_owned(), "en_US".to_owned()));
    pairs.push(("tier".to_owned(), "aa".to_owned()));
    proof {
        assert(kv_views(pairs@) =~= default_param_views());
    }
    pairs
}

/// Builds the request that the transport sends: the default parameters are
/// prepended to the caller's.
pub fn prepare(method: Method, url: String, headers: Headers, params: Headers) -> (r:
    PreparedRequest)
    ensures
        r.method == method,
        r.url == url,
        r.headers == headers.0,
        kv_views(r.params@) == default_param_views() + kv_views(params.0@),
{
    let ghost extra = params.0@;
    let mut merged = default_params();
    let mut rest = params.into_inner();
    merged.append(&mut rest);
    proof {
        assert(kv_views(merged@) =~= default_param_views() + kv_views(extra));
    }
    PreparedRequest { method, url, headers: headers.into_inner(), params: merged }
}

/// An HTTP response as the transport hands it back: the status code and the
/// body bytes.
#[derive(Debug)]
pub struct HttpResponse {
    pub status: u16,
    pub body: Vec<u8>,
}

/// The partial token that a refresh exchange returns: a new access secret
/// and its time-to-live. The refresh secret is never part of it.
pub struct TokenGrant {
    pub access_secret: String,
    pub ttl_ms: u64,
}

/// Where a signed request stands between network operations.
pub enum FlowPhase {
    /// Created; nothing has been sent.
    Ready,
    /// A refresh exchange is in flight; `retried` says whether it was forced
    /// by a 401 response rather than by a stale cache.
    Refreshing { retried: bool },
    /// The request is in flight; `retried` says whether this is the single
    /// resend after a 401.
    Sent { retried: bool },
    /// A terminal outcome has been produced.
    Complete,
}

/// What the caller must do next to advance a signed request.
pub enum FlowAction {
    /// Exchange `refresh_secret` with the OAuth gateway and report the
    /// outcome through `on_refresh_outcome`.
    Refresh { refresh_secret: String },
    /// Send the request once with this `Authorization` header value and
    /// report the response through `on_response` (or a transport failure
    /// through `on_transport_error`).
    Send { auth_header: String },
    /// The request is finished with this outcome.
    Finish { result: Result<HttpResponse, Error> },
}

/// The signed-request executor, as an explicit state machine.
///
/// The caller performs each returned action (a refresh exchange or one HTTP
/// send) and reports its outcome; the machine decides what follows. By
/// construction a request makes at most two sends and at most two refreshes:
/// one refresh for a stale cache before the first send, and one refresh with
/// one resend after a 401 response. Every other failure is terminal.
pub struct RequestFlow {
    phase: FlowPhase,
    refreshes: u64,
    sends: u64,
}

impl RequestFlow {
    pub closed spec fn spec_phase(self) -> FlowPhase {
        self.phase
    }

    /// How many refresh exchanges have been requested so far.
    pub closed spec fn spec_refreshes(self) -> u64 {
        self.refreshes
    }

    /// How many sends have been requested so far.
    pub closed spec fn spec_sends(self) -> u64 {
        self.sends
    }

    /// At most two network attempts and at most two refresh exchanges per
    /// logical request, whatever happens.
    pub open spec fn wf(self) -> bool {
        &&& self.spec_refreshes() <= 2
        &&& self.spec_sends() <= 2
        &&& match self.spec_phase() {
            FlowPhase::Ready => self.spec_refreshes() == 0 && self.spec_sends() == 0,
            FlowPhase::Refreshing { retried } => if retried {
                self.spec_sends() == 1 && 1 <= self.spec_refreshes()
            } else {
                self.spec_refreshes() == 1 && self.spec_sends() == 0
            },
            FlowPhase::Sent { retried } => if retried {
                self.spec_sends() == 2
            } else {
                self.spec_sends() == 1 && self.spec_refreshes() <= 1
            },
            FlowPhase::Complete => true,
        }
    }

    pub fn new() -> (r: RequestFlow)
        ensures
            r.spec_phase() == FlowPhase::Ready,
            r.spec_refreshes() == 0,
            r.spec_sends() == 0,
            r.wf(),
    {
        RequestFlow { phase: FlowPhase::Ready, refreshes: 0, sends: 0 }
    }

    pub fn refreshes(&self) -> (r: u64)
        ensures
            r == self.spec_refreshes(),
    {
        self.refreshes
    }

    pub fn sends(&self) -> (r: u64)
        ensures
            r == self.spec_sends(),
    {
        self.sends
    }

    pub fn is_complete(&self) -> (r: bool)
        ensures
            r == (self.spec_phase() == FlowPhase::Complete),
    {
        match self.phase {
            FlowPhase::Complete => true,
            _ => false,
        }
    }

    /// Begins a signed request against the given cache snapshot. When the
    /// cache needs a new token the action is the initial refresh exchange
    /// (or, when the cache cannot refresh, the terminal error, with no HTTP
    /// request attempted); otherwise the action is the first send.
    pub fn start(&mut self, cache: &AuthToken, now_ms: u64) -> (a: FlowAction)
        requires
            old(self).spec_phase() == FlowPhase::Ready,
            old(self).wf(),
        ensures
            final(self).wf(),
            final(self).spec_sends() <= 1,
            if cache.spec_requires_new_token(now_ms) {
                match cache.spec_refresh_secret() {
                    Ok(s) => a matches FlowAction::Refresh { refresh_secret } && refresh_secret@
                        == s && final(self).spec_phase() == (FlowPhase::Refreshing {
                        retried: false,
                    }) && final(self).spec_refreshes() == 1 && final(self).spec_sends() == 0,
                    Err(e) => a matches FlowAction::Finish { result } && result matches Err(got)
                        && got == e && final(self).spec_phase() == FlowPhase::Complete && final(self).spec_refreshes() == 0 && final(self).spec_sends() == 0,
                }
            } else {
                a matches FlowAction::Send { auth_header } && auth_header@ == "Bearer "@
                    + cache.spec_access_secret() && final(self).spec_phase() == (FlowPhase::Sent {
                    retried: false,
                }) && final(self).spec_refreshes() == 0 && final(self).spec_sends() == 1
            },
    {
        if cache.requires_new_token(now_ms) {
            match cache.refresh_secret() {
                Ok(secret) => {
                    self.phase = FlowPhase::Refreshing { retried: false };
                    self.refreshes = self.refreshes + 1;
                    FlowAction::Refresh { refresh_secret: secret }
                },
                Err(e) => {
                    self.phase = FlowPhase::Complete;
                    FlowAction::Finish { result: Err(e) }
                },
            }
        } else {
            match cache.get_auth_header() {
                Ok(header) => {
                    self.phase = FlowPhase::Sent { retried: false };
                    self.sends = self.sends + 1;
                    FlowAction::Send { auth_header: header }
                },
                Err(e) => {
                    // A fresh token is present, so the header is available.
                    proof {
                        assert(false);
                    }
                    FlowAction::Finish { result: Err(e) }
                },
            }
        }
    }

    /// Reports the outcome of the refresh exchange that the last action
    /// asked for. Success installs the new access secret in the cache (the
    /// refresh secret stays) and yields the next send; failure is terminal
    /// and propagates the gateway's error.
    pub fn on_refresh_outcome(
        &mut self,
        cache: &mut AuthToken,
        outcome: Result<TokenGrant, Error>,
        now_ms: u64,
    ) -> (a: FlowAction)
        requires
            old(self).spec_phase() matches FlowPhase::Refreshing { .. },
            old(self).wf(),
        ensures
            final(self).wf(),
            final(self).spec_refreshes() == old(self).spec_refreshes(),
            old(self).spec_phase() matches FlowPhase::Refreshing { retried } ==> match outcome {
                Err(e) => *final(cache) == *old(cache) && (a matches FlowAction::Finish { result }
                    && result matches Err(got) && got == e) && final(self).spec_phase()
                    == FlowPhase::Complete && final(self).spec_sends() == old(self).spec_sends(),
                Ok(grant) => match old(cache).spec_token() {
                    Some(t) => final(cache).spec_token() == Some(
                        Token {
                            access_secret: grant.access_secret,
                            refresh_secret: t.refresh_secret,
                            issued_at_ms: now_ms,
                            ttl_ms: grant.ttl_ms,
                        },
                    ) && (a matches FlowAction::Send { auth_header } && auth_header@ == "Bearer "@
                        + grant.access_secret@) && final(self).spec_phase() == (FlowPhase::Sent {
                        retried,
                    }) && final(self).spec_sends() == old(self).spec_sends() + 1,
                    None => final(cache).spec_token() is None && (a
                        matches FlowAction::Finish { result } && result matches Err(got) && got
                        == Error::Unauthenticated) && final(self).spec_phase()
                        == FlowPhase::Complete && final(self).spec_sends() == old(self).spec_sends(),
                },
            },
    {
        let retried = match self.phase {
            FlowPhase::Refreshing { retried } => retried,
            _ => false,
        };
        match outcome {
            Err(e) => {
                self.phase = FlowPhase::Complete;
                FlowAction::Finish { result: Err(e) }
            },
            Ok(grant) => {
                cache.set_access_token(grant.access_secret, grant.ttl_ms, now_ms);
                match cache.get_auth_header() {
                    Ok(header) => {
                        self.phase = FlowPhase::Sent { retried };
                        self.sends = self.sends + 1;
                        FlowAction::Send { auth_header: header }
                    },
                    Err(e) => {
                        self.phase = FlowPhase::Complete;
                        FlowAction::Finish { result: Err(e) }
                    },
                }
            },
        }
    }

    /// Reports the response to the send that the last action asked for. A
    /// non-error status is the terminal success. A 401 on the first send
    /// forces one refresh exchange (even when the cache was just refreshed:
    /// the remote rejection is authoritative). Everything else — any other
    /// error status, or a 401 on the resend — is a terminal protocol error
    /// carrying the status and body.
    pub fn on_response(&mut self, cache: &AuthToken, status: u16, body: Vec<u8>) -> (a: FlowAction)
        requires
            old(self).spec_phase() matches FlowPhase::Sent { .. },
            old(self).wf(),
        ensures
            final(self).wf(),
            final(self).spec_sends() == old(self).spec_sends(),
            old(self).spec_phase() matches FlowPhase::Sent { retried } ==> if status < 400 {
                a matches FlowAction::Finish { result } && result matches Ok(resp) && resp.status
                    == status && resp.body == body && final(self).spec_phase()
                    == FlowPhase::Complete && final(self).spec_refreshes() == old(self).spec_refreshes()
            } else if status == 401 && !retried {
                match cache.spec_refresh_secret() {
                    Ok(s) => a matches FlowAction::Refresh { refresh_secret } && refresh_secret@
                        == s && final(self).spec_phase() == (FlowPhase::Refreshing {
                        retried: true,
                    }) && final(self).spec_refreshes() == old(self).spec_refreshes() + 1,
                    Err(e) => a matches FlowAction::Finish { result } && result matches Err(got)
                        && got == e && final(self).spec_phase() == FlowPhase::Complete && final(self).spec_refreshes() == old(self).spec_refreshes(),
                }
            } else {
                a matches FlowAction::Finish { result } && result matches Err(got) && got == (
                Error::ProtocolError { status, body }) && final(self).spec_phase()
                    == FlowPhase::Complete && final(self).spec_refreshes() == old(self).spec_refreshes()
            },
    {
        let retried = match self.phase {
            FlowPhase::Sent { retried } => retried,
            _ => false,
        };
        if status < 400 {
            self.phase = FlowPhase::Complete;
            FlowAction::Finish { result: Ok(HttpResponse { status, body }) }
        } else if status == 401 && !retried {
            match cache.refresh_secret() {
                Ok(secret) => {
                    self.phase = FlowPhase::Refreshing { retried: true };
                    self.refreshes = self.refreshes + 1;
                    FlowAction::Refresh { refresh_secret: secret }
                },
                Err(e) => {
                    self.phase = FlowPhase::Complete;
                    FlowAction::Finish { result: Err(e) }
                },
            }
        } else {
            self.phase = FlowPhase::Complete;
            FlowAction::Finish { result: Err(Error::ProtocolError { status, body }) }
        }
    }

    /// Reports that the send failed in the transport before any response
    /// arrived. Terminal; the transport's error is propagated unchanged.
    pub fn on_transport_error(&mut self, error: Error) -> (a: FlowAction)
        requires
            old(self).spec_phase() matches FlowPhase::Sent { .. },
            old(self).wf(),
        ensures
            final(self).wf(),
            final(self).spec_sends() == old(self).spec_sends(),
            final(self).spec_refreshes() == old(self).spec_refreshes(),
            final(self).spec_phase() == FlowPhase::Complete,
            a matches FlowAction::Finish { result } && result matches Err(got) && got == error,
    {
        self.phase = FlowPhase::Complete;
        FlowAction::Finish { result: Err(error) }
    }
}

/// The base of every versioned API endpoint.
pub open spec fn base_url_view() -> Seq<char> {
    "https://mclients.googleapis.com/sj/v2.5/"@
}

/// The stream endpoint.
pub open spec fn stream_url_view() -> Seq<char> {
    "https://mclients.googleapis.com/music/mplay"@
}

fn endpoint_url(path: &str) -> (r: String)
    ensures
        r@ == base_url_view() + path@,
{
    let mut url = String::from_str("https://mclients.googleapis.com/sj/v2.5/");
    url.append(path);
    url
}

/// Whether an identifier names a store catalog item rather than a
/// personal-library one: store identifiers start with `T`.
pub open spec fn spec_is_store_id(id: Seq<char>) -> bool {
    id.len() > 0 && id[0] == 'T'
}

pub fn is_store_id(id: &str) -> (r: bool)
    ensures
        r == spec_is_store_id(id@),
{
    id.unicode_len() > 0 && id.get_char(0) == 'T'
}

/// The request for the full track feed.
pub fn all_tracks_request() -> (r: PreparedRequest)
    ensures
        r.method == Method::Post,
        r.url@ == base_url_view() + "trackfeed"@,
        r.headers@.len() == 0,
        kv_views(r.params@) == default_param_views(),
{
    let r = prepare(Method::Post, endpoint_url("trackfeed"), Headers::new(), Headers::new());
    proof {
        assert(kv_views(r.params@) =~= default_param_views());
    }
    r
}

/// The request for the full playlist feed.
pub fn all_playlists_request() -> (r: PreparedRequest)
    ensures
        r.method == Method::Post,
        r.url@ == base_url_view() + "playlistfeed"@,
        r.headers@.len() == 0,
        kv_views(r.params@) == default_param_views(),
{
    let r = prepare(Method::Post, endpoint_url("playlistfeed"), Headers::new(), Headers::new());
    proof {
        assert(kv_views(r.params@) =~= default_param_views());
    }
    r
}

/// The request for the list of devices the account has been used on.
pub fn device_management_info_request() -> (r: PreparedRequest)
    ensures
        r.method == Method::Get,
        r.url@ == base_url_view() + "devicemanagementinfo"@,
        r.headers@.len() == 0,
        kv_views(r.params@) == default_param_views(),
{
    let r = prepare(
        Method::Get,
        endpoint_url("devicemanagementinfo"),
        Headers::new(),
        Headers::new(),
    );
    proof {
        assert(kv_views(r.params@) =~= default_param_views());
    }
    r
}

/// One page of the playlist-entry feed: the request and the body to post
/// with it. The body asks for up to 20000 entries starting at the given
/// continuation token; the first page passes no token.
pub fn playlist_entries_page_request(page: Option<String>) -> (r: (
    PreparedRequest,
    GetPlaylistEntriesRequest,
))
    ensures
        r.0.method == Method::Post,
        r.0.url@ == base_url_view() + "plentryfeed"@,
        r.0.headers@.len() == 0,
        kv_views(r.0.params@) == default_param_views(),
        r.1.start_token == page,
        r.1.max_results matches Some(m) && m@ == "20000"@,
{
    let req = prepare(Method::Post, endpoint_url("plentryfeed"), Headers::new(), Headers::new());
    proof {
        assert(kv_views(req.params@) =~= default_param_views());
    }
    let body = GetPlaylistEntriesRequest {
        start_token: page,
        max_results: Some("20000".to_owned()),
    };
    (req, body)
}

/// The request for one store track. Yields nothing when the identifier is
/// not a store identifier; such a call is rejected without a request.
pub fn store_track_request(track_id: &str) -> (r: Option<PreparedRequest>)
    ensures
        r is Some <==> spec_is_store_id(track_id@),
        r matches Some(pr) ==> pr.method == Method::Get && pr.url@ == base_url_view()
            + "fetchtrack"@ && pr.headers@.len() == 0 && kv_views(pr.params@)
            == default_param_views() + seq![("alt"@, "json"@), ("nid"@, track_id@)],
{
    if !is_store_id(track_id) {
        return None;
    }
    let params = Headers::new().append("alt", "json").append("nid", track_id);
    let ghost param_views = kv_views(params.0@);
    let pr = prepare(Method::Get, endpoint_url("fetchtrack"), Headers::new(), params);
    proof {
        assert(param_views =~= seq![("alt"@, "json"@), ("nid"@, track_id@)]);
    }
    Some(pr)
}

/// The request for one album, tracks included.
pub fn album_request(album_id: &str) -> (r: PreparedRequest)
    ensures
        r.method == Method::Get,
        r.url@ == base_url_view() + "fetchalbum"@,
        r.headers@.len() == 0,
        kv_views(r.params@) == default_param_views() + seq![
            ("alt"@, "json"@),
            ("nid"@, album_id@),
            ("include-tracks"@, "true"@),
        ],
{
    let params = Headers::new().append("alt", "json").append("nid", album_id).append(
        "include-tracks",
        "true",
    );
    let ghost param_views = kv_views(params.0@);
    let pr = prepare(Method::Get, endpoint_url("fetchalbum"), Headers::new(), params);
    proof {
        assert(param_views =~= seq![
            ("alt"@, "json"@),
            ("nid"@, album_id@),
            ("include-tracks"@, "true"@),
        ]);
    }
    pr
}

/// The request for one artist, with albums and the twenty top tracks.
pub fn artist_request(artist_id: &str) -> (r: PreparedRequest)
    ensures
        r.method == Method::Get,
        r.url@ == base_url_view() + "fetchartist"@,
        r.headers@.len() == 0,
        kv_views(r.params@) == default_param_views() + seq![
            ("alt"@, "json"@),
            ("nid"@, artist_id@),
            ("include-albums"@, "true"@),
            ("num-top-tracks"@, "20"@),
        ],
{
    let params = Headers::new().append("alt", "json").append("nid", artist_id).append(
        "include-albums",
        "true",
    ).append("num-top-tracks", "20");
    let ghost param_views = kv_views(params.0@);
    let pr = prepare(Method::Get, endpoint_url("fetchartist"), Headers::new(), params);
    proof {
        assert(param_views =~= seq![
            ("alt"@, "json"@),
            ("nid"@, artist_id@),
            ("include-albums"@, "true"@),
            ("num-top-tracks"@, "20"@),
        ]);
    }
    pr
}

/// The search request; the result count defaults to fifty.
pub fn search_request(query: &str, max_results: Option<u64>) -> (r: PreparedRequest)
    ensures
        r.method == Method::Get,
        r.url@ == base_url_view() + "query"@,
        r.headers@.len() == 0,
        kv_views(r.params@) == default_param_views() + seq![
            ("ct"@, "1,2,3,4,5,6,7,8,9"@),
            ("ic"@, "true"@),
            ("q"@, query@),
            (
                "max-results"@,
                ascii_chars(
                    dec_digits(
                        match max_results {
                            Some(m) => m as nat,
                            None => 50,
                        },
                    ),
                ),
            ),
        ],
{
    let count: u64 = match max_results {
        Some(m) => m,
        None => 50,
    };
    let count_text = decimal_string(count);
    let params = Headers::new().append("ct", "1,2,3,4,5,6,7,8,9").append("ic", "true").append(
        "q",
        query,
    ).append("max-results", count_text.as_str());
    let ghost param_views = kv_views(params.0@);
    let pr = prepare(Method::Get, endpoint_url("query"), Headers::new(), params);
    proof {
        assert(param_views =~= seq![
            ("ct"@, "1,2,3,4,5,6,7,8,9"@),
            ("ic"@, "true"@),
            ("q"@, query@),
            (
                "max-results"@,
                ascii_chars(
                    dec_digits(
                        match max_results {
                            Some(m) => m as nat,
                            None => 50,
                        },
                    ),
                ),
            ),
        ]);
    }
    pr
}

/// The stream-URL request for a media identifier: the signature and salt
/// from the signer, the device header, and the identifier under `mjck` for a
/// store identifier or `songid` for a personal-library one.
pub fn stream_request(id: &str, device_id: &str, sig: &str, salt: &str) -> (r: PreparedRequest)
    ensures
        r.method == Method::Get,
        r.url@ == stream_url_view(),
        kv_views(r.headers@) == seq![("X-Device-ID"@, device_id@)],
        kv_views(r.params@) == default_param_views() + seq![
            ("opt"@, "hi"@),
            ("net"@, "mob"@),
            ("pt"@, "e"@),
            ("slt"@, salt@),
            ("sig"@, sig@),
            (if spec_is_store_id(id@) {
                ("mjck"@, id@)
            } else {
                ("songid"@, id@)
            }),
        ],
{
    let mut params = Headers::new().append("opt", "hi").append("net", "mob").append(
        "pt",
        "e",
    ).append("slt", salt).append("sig", sig);
    if is_store_id(id) {
        params = params.append("mjck", id);
    } else {
        params = params.append("songid", id);
    }
    let headers = Headers::new().append("X-Device-ID", device_id);
    let ghost param_views = kv_views(params.0@);
    let ghost header_views = kv_views(headers.0@);
    let pr = prepare(
        Method::Get,
        String::from_str("https://mclients.googleapis.com/music/mplay"),
        headers,
        params,
    );
    proof {
        assert(header_views =~= seq![("X-Device-ID"@, device_id@)]);
        assert(param_views =~= seq![
            ("opt"@, "hi"@),
            ("net"@, "mob"@),
            ("pt"@, "e"@),
            ("slt"@, salt@),
            ("sig"@, sig@),
            (if spec_is_store_id(id@) {
                ("mjck"@, id@)
            } else {
                ("songid"@, id@)
            }),
        ]);
        assert(kv_views(pr.headers@) =~= header_views);
    }
    pr
}

/// An entry surfaced to the caller has its nested track's identifier
/// overwritten with the entry's own track identifier, the rest unchanged:
/// the nested record's native identifier is unreliable.
pub open spec fn entry_normalized(a: PlaylistEntry, b: PlaylistEntry) -> bool {
    &&& b == PlaylistEntry { track: b.track, ..a }
    &&& match a.track {
        Some(t) => b.track matches Some(bt) && bt == Track { id: bt.id, ..t } && bt.id@
            == a.track_id@,
        None => b.track is None,
    }
}

/// Normalizes every entry of one page before it is surfaced.
pub fn normalize_entries(items: Vec<PlaylistEntry>) -> (r: Vec<PlaylistEntry>)
    ensures
        r@.len() == items@.len(),
        forall|i: int| 0 <= i < r@.len() ==> entry_normalized(items@[i], #[trigger] r@[i]),
{
    let mut input = items;
    let mut out: Vec<PlaylistEntry> = Vec::new();
    proof {
        assert(input@ =~= items@.subrange(out@.len() as int, items@.len() as int));
    }
    while input.len() > 0
        invariant
            out@.len() + input@.len() == items@.len(),
            input@ =~= items@.subrange(out@.len() as int, items@.len() as int),
            forall|i: int| 0 <= i < out@.len() ==> entry_normalized(items@[i], #[trigger] out@[i]),
        decreases input@.len(),
    {
        let entry = input.remove(0);
        proof {
            assert(entry == items@[out@.len() as int]);
        }
        let PlaylistEntry {
            kind,
            id,
            client_id,
            playlist_id,
            absolute_position,
            track_id,
            creation_timestamp,
            last_modified_timestamp,
            deleted,
            source,
            track,
        } = entry;
        let track = match track {
            Some(mut t) => {
                t.id = track_id.clone();
                Some(t)
            },
            None => None,
        };
        out.push(
            PlaylistEntry {
                kind,
                id,
                client_id,
                playlist_id,
                absolute_position,
                track_id,
                creation_timestamp,
                last_modified_timestamp,
                deleted,
                source,
                track,
            },
        );
        proof {
            assert(input@ =~= items@.subrange(out@.len() as int, items@.len() as int));
        }
    }
    out
}

} // verus!
