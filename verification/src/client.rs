//! The request side of each API call — the resolved URL, the query string,
//! the request body — and the reading of each response's status code and
//! text. Sending the requests is transport work and stays outside the
//! library; everything here is exact about the bytes that go on the wire.

use vstd::prelude::*;
use crate::error::QBittorrentError;
use crate::json::JsonObject;
use crate::json::json_text;
use crate::json::json_to_string;
use crate::models::LogParams;
use crate::models::TorrentListParams;
use crate::models::spec_filter_text;
use crate::numtext::dec_digits;
use crate::numtext::int_text;
use crate::numtext::is_unsigned_dec_text;
use crate::numtext::isize_to_string;
use crate::numtext::parse_usize;
use crate::numtext::unsigned_dec_value;
use crate::numtext::usize_to_string;
use crate::urls::build_url;
use crate::urls::form_encoded;
use crate::urls::form_urlencode;
use crate::urls::joined_url;
use crate::urls::url_joins;
use crate::urls::percent_encode;
use crate::urls::percent_encoded;

verus! {

/// The fixed paths of the daemon's REST surface.
#[derive(Debug, Clone, Copy, PartialEq, Eq, Structural)]
pub enum ApiEndpoint {
    AuthLogin,
    AuthLogout,
    AppVersion,
    AppWebApiVersion,
    AppBuildInfo,
    AppShutdown,
    AppPreferences,
    AppSetPreferences,
    AppDefaultSavePath,
    LogMain,
    LogPeers,
    SyncMainData,
    TransferInfo,
    TransferSpeedLimitsMode,
    TransferToggleSpeedLimitsMode,
    TransferDownloadLimit,
    TransferSetDownloadLimit,
    TransferUploadLimit,
    TransferSetUploadLimit,
    TransferBanPeers,
    TorrentsInfo,
    TorrentsProperties,
    TorrentsTrackers,
    TorrentsWebSeeds,
    TorrentsPause,
    TorrentsResume,
    TorrentsDelete,
}

/// The path each endpoint lives under, relative to the base URL.
pub open spec fn spec_endpoint_path(e: ApiEndpoint) -> Seq<char> {
    match e {
        ApiEndpoint::AuthLogin => "/api/v2/auth/login"@,
        ApiEndpoint::AuthLogout => "/api/v2/auth/logout"@,
        ApiEndpoint::AppVersion => "/api/v2/app/version"@,
        ApiEndpoint::AppWebApiVersion => "/api/v2/app/webapiVersion"@,
        ApiEndpoint::AppBuildInfo => "/api/v2/app/buildInfo"@,
        ApiEndpoint::AppShutdown => "/api/v2/app/shutdown"@,
        ApiEndpoint::AppPreferences => "/api/v2/app/preferences"@,
        ApiEndpoint::AppSetPreferences => "/api/v2/app/setPreferences"@,
        ApiEndpoint::AppDefaultSavePath => "/api/v2/app/defaultSavePath"@,
        ApiEndpoint::LogMain => "/api/v2/log/main"@,
        ApiEndpoint::LogPeers => "/api/v2/log/peers"@,
        ApiEndpoint::SyncMainData => "/api/v2/sync/maindata"@,
        ApiEndpoint::TransferInfo => "/api/v2/transfer/info"@,
        ApiEndpoint::TransferSpeedLimitsMode => "/api/v2/transfer/speedLimitsMode"@,
        ApiEndpoint::TransferToggleSpeedLimitsMode => "/api/v2/transfer/toggleSpeedLimitsMode"@,
        ApiEndpoint::TransferDownloadLimit => "/api/v2/transfer/downloadLimit"@,
        ApiEndpoint::TransferSetDownloadLimit => "/api/v2/transfer/setDownloadLimit"@,
        ApiEndpoint::TransferUploadLimit => "/api/v2/transfer/uploadLimit"@,
        ApiEndpoint::TransferSetUploadLimit => "/api/v2/transfer/setUploadLimit"@,
        ApiEndpoint::TransferBanPeers => "/api/v2/transfer/banPeers"@,
        ApiEndpoint::TorrentsInfo => "/api/v2/torrents/info"@,
        ApiEndpoint::TorrentsProperties => "/api/v2/torrents/properties"@,
        ApiEndpoint::TorrentsTrackers => "/api/v2/torrents/trackers"@,
        ApiEndpoint::TorrentsWebSeeds => "/api/v2/torrents/webseeds"@,
        ApiEndpoint::TorrentsPause => "/api/v2/torrents/pause"@,
        ApiEndpoint::TorrentsResume => "/api/v2/torrents/resume"@,
        ApiEndpoint::TorrentsDelete => "/api/v2/torrents/delete"@,
    }
}

impl ApiEndpoint {
    /// The path this endpoint lives under.
    pub fn path(&self) -> (r: &'static str)
        ensures
            r@ == spec_endpoint_path(*self),
    {
        match self {
            ApiEndpoint::AuthLogin => "/api/v2/auth/login",
            ApiEndpoint::AuthLogout => "/api/v2/auth/logout",
            ApiEndpoint::AppVersion => "/api/v2/app/version",
            ApiEndpoint::AppWebApiVersion => "/api/v2/app/webapiVersion",
            ApiEndpoint::AppBuildInfo => "/api/v2/app/buildInfo",
            ApiEndpoint::AppShutdown => "/api/v2/app/shutdown",
            ApiEndpoint::AppPreferences => "/api/v2/app/preferences",
            ApiEndpoint::AppSetPreferences => "/api/v2/app/setPreferences",
            ApiEndpoint::AppDefaultSavePath => "/api/v2/app/defaultSavePath",
            ApiEndpoint::LogMain => "/api/v2/log/main",
            ApiEndpoint::LogPeers => "/api/v2/log/peers",
            ApiEndpoint::SyncMainData => "/api/v2/sync/maindata",
            ApiEndpoint::TransferInfo => "/api/v2/transfer/info",
            ApiEndpoint::TransferSpeedLimitsMode => "/api/v2/transfer/speedLimitsMode",
            ApiEndpoint::TransferToggleSpeedLimitsMode => "/api/v2/transfer/toggleSpeedLimitsMode",
            ApiEndpoint::TransferDownloadLimit => "/api/v2/transfer/downloadLimit",
            ApiEndpoint::TransferSetDownloadLimit => "/api/v2/transfer/setDownloadLimit",
            ApiEndpoint::TransferUploadLimit => "/api/v2/transfer/uploadLimit",
            ApiEndpoint::TransferSetUploadLimit => "/api/v2/transfer/setUploadLimit",
            ApiEndpoint::TransferBanPeers => "/api/v2/transfer/banPeers",
            ApiEndpoint::TorrentsInfo => "/api/v2/torrents/info",
            ApiEndpoint::TorrentsProperties => "/api/v2/torrents/properties",
            ApiEndpoint::TorrentsTrackers => "/api/v2/torrents/trackers",
            ApiEndpoint::TorrentsWebSeeds => "/api/v2/torrents/webseeds",
            ApiEndpoint::TorrentsPause => "/api/v2/torrents/pause",
            ApiEndpoint::TorrentsResume => "/api/v2/torrents/resume",
            ApiEndpoint::TorrentsDelete => "/api/v2/torrents/delete",
        }
    }
}

/// Resolves an endpoint's fixed path against the base URL.
pub fn endpoint_url(base: &str, endpoint: ApiEndpoint) -> (r: Result<String, QBittorrentError>)
    ensures
        r is Ok <==> url_joins(base@, spec_endpoint_path(endpoint)),
        r matches Ok(u) ==> u@ == joined_url(base@, spec_endpoint_path(endpoint)),
        r is Err ==> r->Err_0 is Url,
{
    build_url(base, endpoint.path())
}

/// Glues a query string onto a resolved URL.
pub fn url_with_query(resolved: &str, query: &str) -> (r: String)
    ensures
        r@ == resolved@ + "?"@ + query@,
{
    let mut u = String::from_str(resolved);
    u.append("?");
    u.append(query);
    proof {
        assert(u@ =~= resolved@ + "?"@ + query@);
    }
    u
}

/// The word a boolean turns into inside a query string.
pub open spec fn spec_bool_text(b: bool) -> Seq<char> {
    if b {
        "true"@
    } else {
        "false"@
    }
}

/// The word a boolean turns into inside a query string.
fn bool_str(b: bool) -> (r: &'static str)
    ensures
        r@ == spec_bool_text(b),
{
    if b {
        "true"
    } else {
        "false"
    }
}

/// Whether a status code reports success.
pub open spec fn spec_is_success(status: u16) -> bool {
    200 <= status < 300
}

/// The form-encoded body of the login request. The credentials travel
/// verbatim, as the daemon expects them.
pub open spec fn spec_login_body(username: Seq<char>, password: Seq<char>) -> Seq<char> {
    "username="@ + username + "&password="@ + password
}

/// Builds the body of the login request.
pub fn login_body(username: &str, password: &str) -> (r: String)
    ensures
        r@ == spec_login_body(username@, password@),
{
    let mut body = String::from_str("username=");
    body.append(username);
    body.append("&password=");
    body.append(password);
    proof {
        assert(body@ =~= spec_login_body(username@, password@));
    }
    body
}

/// Reads the login response: any success status is a completed login,
/// anything else is a rejected one.
pub fn login_result(status: u16) -> (r: Result<(), QBittorrentError>)
    ensures
        r is Ok <==> spec_is_success(status),
        r is Err ==> r->Err_0 is AuthFailed,
{
    if 200 <= status && status < 300 {
        Ok(())
    } else {
        Err(QBittorrentError::AuthFailed)
    }
}

/// Reads the response of a call that reports any failure as a bad request.
pub fn expect_success_or_bad_request(status: u16) -> (r: Result<(), QBittorrentError>)
    ensures
        r is Ok <==> spec_is_success(status),
        r is Err ==> r->Err_0 is BadRequest,
{
    if 200 <= status && status < 300 {
        Ok(())
    } else {
        Err(QBittorrentError::BadRequest)
    }
}

/// Reads the response of a call keyed by a torrent hash, where a failure
/// means the hash was not known.
pub fn expect_success_or_bad_input(status: u16) -> (r: Result<(), QBittorrentError>)
    ensures
        r is Ok <==> spec_is_success(status),
        r is Err ==> (r->Err_0 matches QBittorrentError::BadInput(t) && t@
            == "torrent hash was not found"@),
{
    if 200 <= status && status < 300 {
        Ok(())
    } else {
        Err(QBittorrentError::BadInput(String::from_str("torrent hash was not found")))
    }
}

/// Reads the status of the preferences calls: only a 400 is reported, as a
/// bad request.
pub fn preferences_result(status: u16) -> (r: Result<(), QBittorrentError>)
    ensures
        r is Ok <==> status != 400,
        r is Err ==> r->Err_0 is BadRequest,
{
    if status == 400 {
        Err(QBittorrentError::BadRequest)
    } else {
        Ok(())
    }
}

/// Reads the alternate-speed-limits state out of its response text: the
/// daemon answers "1" for enabled and anything else means disabled.
pub fn speed_limits_enabled(text: &str) -> (r: bool)
    ensures
        r == (text@ == "1"@),
{
    let t = String::from_str(text);
    let one = String::from_str("1");
    t == one
}

/// Reads a plain-text transfer limit in bytes per second; text that is not
/// an unsigned decimal number that fits is a `ParseInt` error carrying that
/// text.
pub fn parse_limit_text(text: &str) -> (r: Result<usize, QBittorrentError>)
    ensures
        r is Ok <==> is_unsigned_dec_text(text@) && unsigned_dec_value(text@) <= usize::MAX,
        r is Ok ==> r->Ok_0 as nat == unsigned_dec_value(text@),
        r is Err ==> (r->Err_0 matches QBittorrentError::ParseInt(t) && t@ == text@),
{
    match parse_usize(text) {
        Some(n) => Ok(n),
        None => Err(QBittorrentError::ParseInt(String::from_str(text))),
    }
}

/// The main-log query: the four severity switches and the cursor, in the
/// order the daemon documents them.
pub open spec fn spec_logs_query(p: LogParams) -> Seq<char> {
    "normal="@ + spec_bool_text(p.normal) + "&info="@ + spec_bool_text(p.info) + "&warning="@
        + spec_bool_text(p.warning) + "&critical="@ + spec_bool_text(p.critical)
        + "&last_known_id="@ + int_text(p.last_known_id as int)
}

/// Builds the main-log query.
pub fn logs_query(params: &LogParams) -> (r: String)
    ensures
        r@ == spec_logs_query(*params),
{
    let mut q = String::from_str("normal=");
    q.append(bool_str(params.normal));
    q.append("&info=");
    q.append(bool_str(params.info));
    q.append("&warning=");
    q.append(bool_str(params.warning));
    q.append("&critical=");
    q.append(bool_str(params.critical));
    q.append("&last_known_id=");
    q.append(isize_to_string(params.last_known_id).as_str());
    proof {
        assert(q@ =~= spec_logs_query(*params));
    }
    q
}

/// The peer-log query: the cursor, with -1 standing for "everything" when
/// none was given.
pub open spec fn spec_peer_logs_query(last_known_id: Option<usize>) -> Seq<char> {
    "last_known_id="@ + (match last_known_id {
        Some(n) => dec_digits(n as nat),
        None => "-1"@,
    })
}

/// Builds the peer-log query.
pub fn peer_logs_query(last_known_id: Option<usize>) -> (r: String)
    ensures
        r@ == spec_peer_logs_query(last_known_id),
{
    let mut q = String::from_str("last_known_id=");
    match last_known_id {
        Some(n) => q.append(usize_to_string(n).as_str()),
        None => q.append("-1"),
    }
    proof {
        assert(q@ =~= spec_peer_logs_query(last_known_id));
    }
    q
}

/// The sync query: the response id to take the delta from, with 0 standing
/// for a full snapshot when none was given.
pub open spec fn spec_sync_query(response_id: Option<usize>) -> Seq<char> {
    "rid="@ + (match response_id {
        Some(n) => dec_digits(n as nat),
        None => dec_digits(0),
    })
}

/// Builds the sync query.
pub fn sync_query(response_id: Option<usize>) -> (r: String)
    ensures
        r@ == spec_sync_query(response_id),
{
    let mut q = String::from_str("rid=");
    match response_id {
        Some(n) => q.append(usize_to_string(n).as_str()),
        None => q.append(usize_to_string(0).as_str()),
    }
    proof {
        assert(q@ =~= spec_sync_query(response_id));
    }
    q
}

/// The query that sets a transfer limit, in bytes per second.
pub open spec fn spec_limit_query(limit: usize) -> Seq<char> {
    "limit="@ + dec_digits(limit as nat)
}

/// Builds the query that sets a transfer limit.
pub fn limit_query(limit: usize) -> (r: String)
    ensures
        r@ == spec_limit_query(limit),
{
    let mut q = String::from_str("limit=");
    q.append(usize_to_string(limit).as_str());
    proof {
        assert(q@ =~= spec_limit_query(limit));
    }
    q
}

/// The peer-ban query: the pipe-separated host:port list, form-encoded.
pub open spec fn spec_ban_peers_query(peers: Seq<char>) -> Seq<char> {
    "peers="@ + form_encoded(peers)
}

/// Builds the peer-ban query.
pub fn ban_peers_query(peers: &str) -> (r: String)
    ensures
        r@ == spec_ban_peers_query(peers@),
{
    let mut q = String::from_str("peers=");
    q.append(form_urlencode(peers).as_str());
    proof {
        assert(q@ =~= spec_ban_peers_query(peers@));
    }
    q
}

/// The query keyed by one torrent hash, form-encoded.
pub open spec fn spec_hash_query(hash: Seq<char>) -> Seq<char> {
    "hash="@ + form_encoded(hash)
}

/// Builds the query keyed by one torrent hash.
pub fn hash_query(hash: &str) -> (r: String)
    ensures
        r@ == spec_hash_query(hash@),
{
    let mut q = String::from_str("hash=");
    q.append(form_urlencode(hash).as_str());
    proof {
        assert(q@ =~= spec_hash_query(hash@));
    }
    q
}

/// The query for a pipe-separated set of torrent hashes, or the word "all",
/// form-encoded.
pub open spec fn spec_hashes_query(hashes: Seq<char>) -> Seq<char> {
    "hashes="@ + form_encoded(hashes)
}

/// Builds the query for a set of torrent hashes.
pub fn hashes_query(hashes: &str) -> (r: String)
    ensures
        r@ == spec_hashes_query(hashes@),
{
    let mut q = String::from_str("hashes=");
    q.append(form_urlencode(hashes).as_str());
    proof {
        assert(q@ =~= spec_hashes_query(hashes@));
    }
    q
}

/// The deletion query: the hashes, and whether the downloaded data goes
/// too.
pub open spec fn spec_delete_query(hashes: Seq<char>, delete_files: bool) -> Seq<char> {
    "hashes="@ + form_encoded(hashes) + "&deleteFiles="@ + spec_bool_text(delete_files)
}

/// Builds the deletion query.
pub fn delete_query(hashes: &str, delete_files: bool) -> (r: String)
    ensures
        r@ == spec_delete_query(hashes@, delete_files),
{
    let mut q = String::from_str("hashes=");
    q.append(form_urlencode(hashes).as_str());
    q.append("&deleteFiles=");
    q.append(bool_str(delete_files));
    proof {
        assert(q@ =~= spec_delete_query(hashes@, delete_files));
    }
    q
}

/// The torrent-list query: filter, category and tag (each double-encoded:
/// percent-encoded first, then form-encoded like every other value), the
/// reverse switch, then sort, limit, offset and hashes only when given.
pub open spec fn spec_torrent_list_query(p: TorrentListParams) -> Seq<char> {
    "filter="@ + spec_filter_text(p.filter) + "&category="@ + form_encoded(
        percent_encoded(p.category@),
    ) + "&tag="@ + form_encoded(percent_encoded(p.tag@)) + "&reverse="@ + spec_bool_text(p.reverse)
        + (match p.sort {
        Some(s) => "&sort="@ + form_encoded(s@),
        None => Seq::<char>::empty(),
    }) + (match p.limit {
        Some(l) => "&limit="@ + dec_digits(l as nat),
        None => Seq::<char>::empty(),
    }) + (match p.offset {
        Some(o) => "&offset="@ + int_text(o as int),
        None => Seq::<char>::empty(),
    }) + (match p.hashes {
        Some(h) => "&hashes="@ + form_encoded(h@),
        None => Seq::<char>::empty(),
    })
}

/// Builds the torrent-list query.
pub fn torrent_list_query(params: &TorrentListParams) -> (r: String)
    ensures
        r@ == spec_torrent_list_query(*params),
{
    let ghost p = *params;
    let ghost head = "filter="@ + spec_filter_text(p.filter) + "&category="@ + form_encoded(
        percent_encoded(p.category@),
    ) + "&tag="@ + form_encoded(percent_encoded(p.tag@)) + "&reverse="@ + spec_bool_text(
        p.reverse,
    );
    let mut q = String::from_str("filter=");
    q.append(params.filter.to_string().as_str());
    q.append("&category=");
    q.append(form_urlencode(percent_encode(params.category.as_str()).as_str()).as_str());
    q.append("&tag=");
    q.append(form_urlencode(percent_encode(params.tag.as_str()).as_str()).as_str());
    q.append("&reverse=");
    q.append(bool_str(params.reverse));
    proof {
        assert(q@ =~= head);
    }
    let ghost with_sort = head + (match p.sort {
        Some(s) => "&sort="@ + form_encoded(s@),
        None => Seq::<char>::empty(),
    });
    match &params.sort {
        Some(s) => {
            q.append("&sort=");
            q.append(form_urlencode(s.as_str()).as_str());
        },
        None => {},
    }
    proof {
        assert(q@ =~= with_sort);
    }
    let ghost with_limit = with_sort + (match p.limit {
        Some(l) => "&limit="@ + dec_digits(l as nat),
        None => Seq::<char>::empty(),
    });
    match &params.limit {
        Some(l) => {
            q.append("&limit=");
            q.append(usize_to_string(*l).as_str());
        },
        None => {},
    }
    proof {
        assert(q@ =~= with_limit);
    }
    let ghost with_offset = with_limit + (match p.offset {
        Some(o) => "&offset="@ + int_text(o as int),
        None => Seq::<char>::empty(),
    });
    match &params.offset {
        Some(o) => {
            q.append("&offset=");
            q.append(isize_to_string(*o).as_str());
        },
        None => {},
    }
    proof {
        assert(q@ =~= with_offset);
    }
    match &params.hashes {
        Some(h) => {
            q.append("&hashes=");
            q.append(form_urlencode(h.as_str()).as_str());
        },
        None => {},
    }
    proof {
        assert(q@ =~= with_offset + (match p.hashes {
            Some(h) => "&hashes="@ + form_encoded(h@),
            None => Seq::<char>::empty(),
        }));
        assert(q@ =~= spec_torrent_list_query(*params));
    }
    q
}

/// The body of the preferences update: the JSON object under the form key
/// `json`, serialized compactly.
pub open spec fn spec_set_preferences_body(obj: JsonObject) -> Seq<char> {
    "json="@ + json_text(obj.spec_value())
}

/// Builds the body of the preferences update.
pub fn set_preferences_body(obj: &JsonObject) -> (r: String)
    ensures
        r@ == spec_set_preferences_body(*obj),
{
    let mut body = String::from_str("json=");
    body.append(json_to_string(obj.value()).as_str());
    proof {
        assert(body@ =~= spec_set_preferences_body(*obj));
    }
    body
}

} // verus!
