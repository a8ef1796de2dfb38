//! The typed records the daemon's API exchanges, the request-side parameter
//! bundles with their defaults, and the readers that turn loosely-typed JSON
//! values into these records.

use vstd::prelude::*;
use crate::error::QBittorrentError;
use crate::json::JsonValue;

verus! {

/// The first member of `m` named `key`, if any.
pub open spec fn lookup(m: Seq<(String, JsonValue)>, key: Seq<char>) -> Option<JsonValue>
    decreases m.len(),
{
    if m.len() == 0 {
        None
    } else if m[0].0@ == key {
        Some(m[0].1)
    } else {
        lookup(m.drop_first(), key)
    }
}

/// The member named `key` of an object-shaped value, if any.
pub open spec fn field(v: JsonValue, key: Seq<char>) -> Option<JsonValue> {
    match v {
        JsonValue::Obj(m) => lookup(m@, key),
        _ => None,
    }
}

/// The member named `key`, when it is a number that fits in `usize`.
pub open spec fn member_usize(m: Seq<(String, JsonValue)>, key: Seq<char>) -> Option<usize> {
    match lookup(m, key) {
        Some(JsonValue::Num(i)) => if 0 <= i <= usize::MAX {
            Some(i as usize)
        } else {
            None
        },
        _ => None,
    }
}

/// The member named `key`, when it is a number that fits in `isize`.
pub open spec fn member_isize(m: Seq<(String, JsonValue)>, key: Seq<char>) -> Option<isize> {
    match lookup(m, key) {
        Some(JsonValue::Num(i)) => if isize::MIN <= i <= isize::MAX {
            Some(i as isize)
        } else {
            None
        },
        _ => None,
    }
}

/// The member named `key`, when it is a boolean.
pub open spec fn member_bool(m: Seq<(String, JsonValue)>, key: Seq<char>) -> Option<bool> {
    match lookup(m, key) {
        Some(JsonValue::Bool(b)) => Some(b),
        _ => None,
    }
}

/// The member named `key`, when it is a string.
pub open spec fn member_string(m: Seq<(String, JsonValue)>, key: Seq<char>) -> Option<String> {
    match lookup(m, key) {
        Some(JsonValue::Str(s)) => Some(s),
        _ => None,
    }
}

/// Finds the member named `key`.
fn obj_get<'a>(m: &'a Vec<(String, JsonValue)>, key: &str) -> (r: Option<&'a JsonValue>)
    ensures
        match r {
            Some(rv) => lookup(m@, key@) == Some(*rv),
            None => lookup(m@, key@) is None,
        },
{
    match obj_index(m, key) {
        Some(j) => Some(&m[j].1),
        None => None,
    }
}

/// The error for a member that is missing or has the wrong shape.
fn bad_field(key: &str) -> (e: QBittorrentError)
    ensures
        e is BadInput,
{
    QBittorrentError::BadInput(String::from_str("missing or invalid field: ").concat(key))
}

/// Reads the member named `key` as a `usize`.
fn get_usize(m: &Vec<(String, JsonValue)>, key: &str) -> (r: Result<usize, QBittorrentError>)
    ensures
        r is Ok <==> member_usize(m@, key@) is Some,
        r is Ok ==> Some(r->Ok_0) == member_usize(m@, key@),
        r is Err ==> r->Err_0 is BadInput,
{
    match obj_get(m, key) {
        Some(JsonValue::Num(i)) => {
            let iv = *i;
            if iv >= 0 && (iv as u64) <= (usize::MAX as u64) {
                Ok(iv as usize)
            } else {
                Err(bad_field(key))
            }
        },
        _ => Err(bad_field(key)),
    }
}

/// Reads the member named `key` as an `isize`.
fn get_isize(m: &Vec<(String, JsonValue)>, key: &str) -> (r: Result<isize, QBittorrentError>)
    ensures
        r is Ok <==> member_isize(m@, key@) is Some,
        r is Ok ==> Some(r->Ok_0) == member_isize(m@, key@),
        r is Err ==> r->Err_0 is BadInput,
{
    match obj_get(m, key) {
        Some(JsonValue::Num(i)) => {
            let iv = *i;
            if iv >= (isize::MIN as i64) && iv <= (isize::MAX as i64) {
                Ok(iv as isize)
            } else {
                Err(bad_field(key))
            }
        },
        _ => Err(bad_field(key)),
    }
}

/// Reads the member named `key` as a boolean.
fn get_bool(m: &Vec<(String, JsonValue)>, key: &str) -> (r: Result<bool, QBittorrentError>)
    ensures
        r is Ok <==> member_bool(m@, key@) is Some,
        r is Ok ==> Some(r->Ok_0) == member_bool(m@, key@),
        r is Err ==> r->Err_0 is BadInput,
{
    match obj_get(m, key) {
        Some(JsonValue::Bool(b)) => Ok(*b),
        _ => Err(bad_field(key)),
    }
}

/// Reads the member named `key` as a string.
fn get_string(m: &Vec<(String, JsonValue)>, key: &str) -> (r: Result<String, QBittorrentError>)
    ensures
        r is Ok <==> member_string(m@, key@) is Some,
        r is Ok ==> Some(r->Ok_0) == member_string(m@, key@),
        r is Err ==> r->Err_0 is BadInput,
{
    match obj_get(m, key) {
        Some(JsonValue::Str(s)) => Ok(s.clone()),
        _ => Err(bad_field(key)),
    }
}

/// One line of the daemon's main log.
#[derive(Debug, Clone)]
pub struct Log {
    pub id: usize,
    pub message: String,
    pub timestamp: usize,
    pub log_type: usize,
}

impl Log {
    /// The record a JSON value stands for: an object with an `id`, a
    /// `message`, a `timestamp` and a `type`.
    pub open spec fn spec_from_json(v: JsonValue) -> Option<Log> {
        match v {
            JsonValue::Obj(m) => match (
                member_usize(m@, "id"@),
                member_string(m@, "message"@),
                member_usize(m@, "timestamp"@),
                member_usize(m@, "type"@),
            ) {
                (Some(id), Some(message), Some(timestamp), Some(log_type)) => Some(
                    Log { id, message, timestamp, log_type },
                ),
                _ => None,
            },
            _ => None,
        }
    }

    /// Reads one log line out of its JSON form.
    pub fn from_json(v: &JsonValue) -> (r: Result<Log, QBittorrentError>)
        ensures
            r is Ok <==> Log::spec_from_json(*v) is Some,
            r is Ok ==> Some(r->Ok_0) == Log::spec_from_json(*v),
            r is Err ==> r->Err_0 is BadInput,
    {
        match v {
            JsonValue::Obj(m) => {
                let id = get_usize(m, "id")?;
                let message = get_string(m, "message")?;
                let timestamp = get_usize(m, "timestamp")?;
                let log_type = get_usize(m, "type")?;
                Ok(Log { id, message, timestamp, log_type })
            },
            _ => Err(bad_field("id")),
        }
    }
}

/// The records of a JSON array of log lines, when every element is one.
pub open spec fn spec_logs_from_json(s: Seq<JsonValue>) -> Option<Seq<Log>> {
    if forall|i: int| 0 <= i < s.len() ==> (#[trigger] Log::spec_from_json(s[i])) is Some {
        Some(Seq::new(s.len(), |i: int| Log::spec_from_json(s[i])->0))
    } else {
        None
    }
}

/// Reads a JSON array of log lines.
pub fn logs_from_json(v: &JsonValue) -> (r: Result<Vec<Log>, QBittorrentError>)
    ensures
        r is Ok <==> (*v matches JsonValue::Arr(a) && spec_logs_from_json(a@) is Some),
        r is Ok ==> (*v matches JsonValue::Arr(a) && Some(r->Ok_0@) == spec_logs_from_json(a@)),
        r is Err ==> r->Err_0 is BadInput,
{
    match v {
        JsonValue::Arr(a) => {
            let n = a.len();
            let mut out: Vec<Log> = Vec::new();
            let mut i: usize = 0;
            while i < n
                invariant
                    i <= n,
                    n == a@.len(),
                    *v == JsonValue::Arr(*a),
                    out@.len() == i,
                    forall|j: int|
                        0 <= j < i ==> (#[trigger] Log::spec_from_json(a@[j])) is Some,
                    forall|j: int| 0 <= j < i ==> out@[j] == Log::spec_from_json(a@[j])->0,
                decreases n - i,
            {
                match Log::from_json(&a[i]) {
                    Ok(l) => out.push(l),
                    Err(e) => {
                        proof {
                            assert(spec_logs_from_json(a@) is None) by {
                                assert(Log::spec_from_json(a@[i as int]) is None);
                            }
                        }
                        return Err(e);
                    },
                }
                i = i + 1;
            }
            proof {
                assert(out@ =~= Seq::new(a@.len(), |j: int| Log::spec_from_json(a@[j])->0));
            }
            Ok(out)
        },
        _ => Err(bad_field("log list")),
    }
}

/// One line of the daemon's peer log.
#[derive(Debug, Clone)]
pub struct PeerLog {
    pub id: usize,
    pub ip: String,
    pub timestamp: usize,
    pub blocked: bool,
    pub reason: String,
}

impl PeerLog {
    /// The record a JSON value stands for.
    pub open spec fn spec_from_json(v: JsonValue) -> Option<PeerLog> {
        match v {
            JsonValue::Obj(m) => match (
                member_usize(m@, "id"@),
                member_string(m@, "ip"@),
                member_usize(m@, "timestamp"@),
                member_bool(m@, "blocked"@),
                member_string(m@, "reason"@),
            ) {
                (Some(id), Some(ip), Some(timestamp), Some(blocked), Some(reason)) => Some(
                    PeerLog { id, ip, timestamp, blocked, reason },
                ),
                _ => None,
            },
            _ => None,
        }
    }

    /// Reads one peer-log line out of its JSON form.
    pub fn from_json(v: &JsonValue) -> (r: Result<PeerLog, QBittorrentError>)
        ensures
            r is Ok <==> PeerLog::spec_from_json(*v) is Some,
            r is Ok ==> Some(r->Ok_0) == PeerLog::spec_from_json(*v),
            r is Err ==> r->Err_0 is BadInput,
    {
        match v {
            JsonValue::Obj(m) => {
                let id = get_usize(m, "id")?;
                let ip = get_string(m, "ip")?;
                let timestamp = get_usize(m, "timestamp")?;
                let blocked = get_bool(m, "blocked")?;
                let reason = get_string(m, "reason")?;
                Ok(PeerLog { id, ip, timestamp, blocked, reason })
            },
            _ => Err(bad_field("id")),
        }
    }
}

/// The records of a JSON array of peer-log lines, when every element is one.
pub open spec fn spec_peer_logs_from_json(s: Seq<JsonValue>) -> Option<Seq<PeerLog>> {
    if forall|i: int| 0 <= i < s.len() ==> (#[trigger] PeerLog::spec_from_json(s[i])) is Some {
        Some(Seq::new(s.len(), |i: int| PeerLog::spec_from_json(s[i])->0))
    } else {
        None
    }
}

/// Reads a JSON array of peer-log lines.
pub fn peer_logs_from_json(v: &JsonValue) -> (r: Result<Vec<PeerLog>, QBittorrentError>)
    ensures
        r is Ok <==> (*v matches JsonValue::Arr(a) && spec_peer_logs_from_json(a@) is Some),
        r is Ok ==> (*v matches JsonValue::Arr(a) && Some(r->Ok_0@) == spec_peer_logs_from_json(
            a@,
        )),
        r is Err ==> r->Err_0 is BadInput,
{
    match v {
        JsonValue::Arr(a) => {
            let n = a.len();
            let mut out: Vec<PeerLog> = Vec::new();
            let mut i: usize = 0;
            while i < n
                invariant
                    i <= n,
                    n == a@.len(),
                    *v == JsonValue::Arr(*a),
                    out@.len() == i,
                    forall|j: int|
                        0 <= j < i ==> (#[trigger] PeerLog::spec_from_json(a@[j])) is Some,
                    forall|j: int| 0 <= j < i ==> out@[j] == PeerLog::spec_from_json(a@[j])->0,
                decreases n - i,
            {
                match PeerLog::from_json(&a[i]) {
                    Ok(l) => out.push(l),
                    Err(e) => {
                        proof {
                            assert(spec_peer_logs_from_json(a@) is None) by {
                                assert(PeerLog::spec_from_json(a@[i as int]) is None);
                            }
                        }
                        return Err(e);
                    },
                }
                i = i + 1;
            }
            proof {
                assert(out@ =~= Seq::new(
                    a@.len(),
                    |j: int| PeerLog::spec_from_json(a@[j])->0,
                ));
            }
            Ok(out)
        },
        _ => Err(bad_field("peer log list")),
    }
}

/// Which log lines the main-log query asks for: the four severity switches
/// and the cursor; lines with an id at or below the cursor are excluded, and
/// the default cursor of -1 asks for everything.
#[derive(Debug, Clone)]
pub struct LogParams {
    pub normal: bool,
    pub info: bool,
    pub warning: bool,
    pub critical: bool,
    pub last_known_id: isize,
}

impl Default for LogParams {
    /// All severities on, cursor -1.
    fn default() -> (r: Self)
        ensures
            r == (LogParams {
                normal: true,
                info: true,
                warning: true,
                critical: true,
                last_known_id: (-1) as isize,
            }),
    {
        LogParams { normal: true, info: true, warning: true, critical: true, last_known_id: -1 }
    }
}

/// How the daemon was built: library versions and word size.
#[derive(Debug, Clone)]
pub struct AppBuildInfo {
    pub qt: String,
    pub libtorrent: String,
    pub boost: String,
    pub openssl: String,
    pub bitness: usize,
}

impl AppBuildInfo {
    /// The record a JSON value stands for.
    pub open spec fn spec_from_json(v: JsonValue) -> Option<AppBuildInfo> {
        match v {
            JsonValue::Obj(m) => match (
                member_string(m@, "qt"@),
                member_string(m@, "libtorrent"@),
                member_string(m@, "boost"@),
                member_string(m@, "openssl"@),
                member_usize(m@, "bitness"@),
            ) {
                (Some(qt), Some(libtorrent), Some(boost), Some(openssl), Some(bitness)) => Some(
                    AppBuildInfo { qt, libtorrent, boost, openssl, bitness },
                ),
                _ => None,
            },
            _ => None,
        }
    }

    /// Reads the build-info record out of its JSON form.
    pub fn from_json(v: &JsonValue) -> (r: Result<AppBuildInfo, QBittorrentError>)
        ensures
            r is Ok <==> AppBuildInfo::spec_from_json(*v) is Some,
            r is Ok ==> Some(r->Ok_0) == AppBuildInfo::spec_from_json(*v),
            r is Err ==> r->Err_0 is BadInput,
    {
        match v {
            JsonValue::Obj(m) => {
                let qt = get_string(m, "qt")?;
                let libtorrent = get_string(m, "libtorrent")?;
                let boost = get_string(m, "boost")?;
                let openssl = get_string(m, "openssl")?;
                let bitness = get_usize(m, "bitness")?;
                Ok(AppBuildInfo { qt, libtorrent, boost, openssl, bitness })
            },
            _ => Err(bad_field("qt")),
        }
    }
}

/// Global transfer statistics, also sent as the server state of a sync
/// snapshot.
#[derive(Debug, Clone)]
pub struct GlobalTransferInfo {
    pub dl_info_speed: usize,
    pub dl_info_data: usize,
    pub up_info_speed: usize,
    pub up_info_data: usize,
    pub dl_rate_limit: usize,
    pub up_rate_limit: usize,
    pub dht_nodes: usize,
    pub connection_status: String,
}

impl GlobalTransferInfo {
    /// The record a JSON value stands for.
    pub open spec fn spec_from_json(v: JsonValue) -> Option<GlobalTransferInfo> {
        match v {
            JsonValue::Obj(m) => match (
                member_usize(m@, "dl_info_speed"@),
                member_usize(m@, "dl_info_data"@),
                member_usize(m@, "up_info_speed"@),
                member_usize(m@, "up_info_data"@),
                member_usize(m@, "dl_rate_limit"@),
                member_usize(m@, "up_rate_limit"@),
                member_usize(m@, "dht_nodes"@),
                member_string(m@, "connection_status"@),
            ) {
                (
                    Some(dl_info_speed),
                    Some(dl_info_data),
                    Some(up_info_speed),
                    Some(up_info_data),
                    Some(dl_rate_limit),
                    Some(up_rate_limit),
                    Some(dht_nodes),
                    Some(connection_status),
                ) => Some(
                    GlobalTransferInfo {
                        dl_info_speed,
                        dl_info_data,
                        up_info_speed,
                        up_info_data,
                        dl_rate_limit,
                        up_rate_limit,
                        dht_nodes,
                        connection_status,
                    },
                ),
                _ => None,
            },
            _ => None,
        }
    }

    /// Reads the transfer-info record out of its JSON form.
    pub fn from_json(v: &JsonValue) -> (r: Result<GlobalTransferInfo, QBittorrentError>)
        ensures
            r is Ok <==> GlobalTransferInfo::spec_from_json(*v) is Some,
            r is Ok ==> Some(r->Ok_0) == GlobalTransferInfo::spec_from_json(*v),
            r is Err ==> r->Err_0 is BadInput,
    {
        match v {
            JsonValue::Obj(m) => {
                let dl_info_speed = get_usize(m, "dl_info_speed")?;
                let dl_info_data = get_usize(m, "dl_info_data")?;
                let up_info_speed = get_usize(m, "up_info_speed")?;
                let up_info_data = get_usize(m, "up_info_data")?;
                let dl_rate_limit = get_usize(m, "dl_rate_limit")?;
                let up_rate_limit = get_usize(m, "up_rate_limit")?;
                let dht_nodes = get_usize(m, "dht_nodes")?;
                let connection_status = get_string(m, "connection_status")?;
                Ok(
                    GlobalTransferInfo {
                        dl_info_speed,
                        dl_info_data,
                        up_info_speed,
                        up_info_data,
                        dl_rate_limit,
                        up_rate_limit,
                        dht_nodes,
                        connection_status,
                    },
                )
            },
            _ => Err(bad_field("dl_info_speed")),
        }
    }
}

/// A torrent category: its name and where its downloads are saved.
#[derive(Debug, Clone)]
pub struct Category {
    pub name: String,
    pub save_path: String,
}

impl Category {
    /// The record a JSON value stands for; the save path travels under the
    /// key `savePath`.
    pub open spec fn spec_from_json(v: JsonValue) -> Option<Category> {
        match v {
            JsonValue::Obj(m) => match (member_string(m@, "name"@), member_string(
                m@,
                "savePath"@,
            )) {
                (Some(name), Some(save_path)) => Some(Category { name, save_path }),
                _ => None,
            },
            _ => None,
        }
    }

    /// Reads one category out of its JSON form.
    pub fn from_json(v: &JsonValue) -> (r: Result<Category, QBittorrentError>)
        ensures
            r is Ok <==> Category::spec_from_json(*v) is Some,
            r is Ok ==> Some(r->Ok_0) == Category::spec_from_json(*v),
            r is Err ==> r->Err_0 is BadInput,
    {
        match v {
            JsonValue::Obj(m) => {
                let name = get_string(m, "name")?;
                let save_path = get_string(m, "savePath")?;
                Ok(Category { name, save_path })
            },
            _ => Err(bad_field("name")),
        }
    }
}

/// One tracker of a torrent.
#[derive(Debug, Clone)]
pub struct TorrentTracker {
    pub url: String,
    pub status: usize,
    pub tier: isize,
    pub num_peers: usize,
    pub num_seeds: usize,
    pub num_leeches: usize,
    pub num_downloaded: usize,
    pub msg: String,
}

impl TorrentTracker {
    /// The record a JSON value stands for.
    pub open spec fn spec_from_json(v: JsonValue) -> Option<TorrentTracker> {
        match v {
            JsonValue::Obj(m) => match (
                member_string(m@, "url"@),
                member_usize(m@, "status"@),
                member_isize(m@, "tier"@),
                member_usize(m@, "num_peers"@),
                member_usize(m@, "num_seeds"@),
                member_usize(m@, "num_leeches"@),
                member_usize(m@, "num_downloaded"@),
                member_string(m@, "msg"@),
            ) {
                (
                    Some(url),
                    Some(status),
                    Some(tier),
                    Some(num_peers),
                    Some(num_seeds),
                    Some(num_leeches),
                    Some(num_downloaded),
                    Some(msg),
                ) => Some(
                    TorrentTracker {
                        url,
                        status,
                        tier,
                        num_peers,
                        num_seeds,
                        num_leeches,
                        num_downloaded,
                        msg,
                    },
                ),
                _ => None,
            },
            _ => None,
        }
    }

    /// Reads one tracker out of its JSON form.
    pub fn from_json(v: &JsonValue) -> (r: Result<TorrentTracker, QBittorrentError>)
        ensures
            r is Ok <==> TorrentTracker::spec_from_json(*v) is Some,
            r is Ok ==> Some(r->Ok_0) == TorrentTracker::spec_from_json(*v),
            r is Err ==> r->Err_0 is BadInput,
    {
        match v {
            JsonValue::Obj(m) => {
                let url = get_string(m, "url")?;
                let status = get_usize(m, "status")?;
                let tier = get_isize(m, "tier")?;
                let num_peers = get_usize(m, "num_peers")?;
                let num_seeds = get_usize(m, "num_seeds")?;
                let num_leeches = get_usize(m, "num_leeches")?;
                let num_downloaded = get_usize(m, "num_downloaded")?;
                let msg = get_string(m, "msg")?;
                Ok(
                    TorrentTracker {
                        url,
                        status,
                        tier,
                        num_peers,
                        num_seeds,
                        num_leeches,
                        num_downloaded,
                        msg,
                    },
                )
            },
            _ => Err(bad_field("url")),
        }
    }
}

/// The records of a JSON array of trackers, when every element is one.
pub open spec fn spec_trackers_from_json(s: Seq<JsonValue>) -> Option<Seq<TorrentTracker>> {
    if forall|i: int|
        0 <= i < s.len() ==> (#[trigger] TorrentTracker::spec_from_json(s[i])) is Some {
        Some(Seq::new(s.len(), |i: int| TorrentTracker::spec_from_json(s[i])->0))
    } else {
        None
    }
}

/// Reads a JSON array of trackers.
pub fn trackers_from_json(v: &JsonValue) -> (r: Result<Vec<TorrentTracker>, QBittorrentError>)
    ensures
        r is Ok <==> (*v matches JsonValue::Arr(a) && spec_trackers_from_json(a@) is Some),
        r is Ok ==> (*v matches JsonValue::Arr(a) && Some(r->Ok_0@) == spec_trackers_from_json(
            a@,
        )),
        r is Err ==> r->Err_0 is BadInput,
{
    match v {
        JsonValue::Arr(a) => {
            let n = a.len();
            let mut out: Vec<TorrentTracker> = Vec::new();
            let mut i: usize = 0;
            while i < n
                invariant
                    i <= n,
                    n == a@.len(),
                    *v == JsonValue::Arr(*a),
                    out@.len() == i,
                    forall|j: int|
                        0 <= j < i ==> (#[trigger] TorrentTracker::spec_from_json(a@[j])) is Some,
                    forall|j: int|
                        0 <= j < i ==> out@[j] == TorrentTracker::spec_from_json(a@[j])->0,
                decreases n - i,
            {
                match TorrentTracker::from_json(&a[i]) {
                    Ok(l) => out.push(l),
                    Err(e) => {
                        proof {
                            assert(spec_trackers_from_json(a@) is None) by {
                                assert(TorrentTracker::spec_from_json(a@[i as int]) is None);
                            }
                        }
                        return Err(e);
                    },
                }
                i = i + 1;
            }
            proof {
                assert(out@ =~= Seq::new(
                    a@.len(),
                    |j: int| TorrentTracker::spec_from_json(a@[j])->0,
                ));
            }
            Ok(out)
        },
        _ => Err(bad_field("tracker list")),
    }
}

/// One web seed of a torrent.
#[derive(Debug, Clone)]
pub struct TorrentWebSeed {
    pub url: String,
}

impl TorrentWebSeed {
    /// The record a JSON value stands for.
    pub open spec fn spec_from_json(v: JsonValue) -> Option<TorrentWebSeed> {
        match v {
            JsonValue::Obj(m) => match member_string(m@, "url"@) {
                Some(url) => Some(TorrentWebSeed { url }),
                _ => None,
            },
            _ => None,
        }
    }

    /// Reads one web seed out of its JSON form.
    pub fn from_json(v: &JsonValue) -> (r: Result<TorrentWebSeed, QBittorrentError>)
        ensures
            r is Ok <==> TorrentWebSeed::spec_from_json(*v) is Some,
            r is Ok ==> Some(r->Ok_0) == TorrentWebSeed::spec_from_json(*v),
            r is Err ==> r->Err_0 is BadInput,
    {
        match v {
            JsonValue::Obj(m) => {
                let url = get_string(m, "url")?;
                Ok(TorrentWebSeed { url })
            },
            _ => Err(bad_field("url")),
        }
    }
}

/// The records of a JSON array of web seeds, when every element is one.
pub open spec fn spec_web_seeds_from_json(s: Seq<JsonValue>) -> Option<Seq<TorrentWebSeed>> {
    if forall|i: int|
        0 <= i < s.len() ==> (#[trigger] TorrentWebSeed::spec_from_json(s[i])) is Some {
        Some(Seq::new(s.len(), |i: int| TorrentWebSeed::spec_from_json(s[i])->0))
    } else {
        None
    }
}

/// Reads a JSON array of web seeds.
pub fn web_seeds_from_json(v: &JsonValue) -> (r: Result<Vec<TorrentWebSeed>, QBittorrentError>)
    ensures
        r is Ok <==> (*v matches JsonValue::Arr(a) && spec_web_seeds_from_json(a@) is Some),
        r is Ok ==> (*v matches JsonValue::Arr(a) && Some(r->Ok_0@) == spec_web_seeds_from_json(
            a@,
        )),
        r is Err ==> r->Err_0 is BadInput,
{
    match v {
        JsonValue::Arr(a) => {
            let n = a.len();
            let mut out: Vec<TorrentWebSeed> = Vec::new();
            let mut i: usize = 0;
            while i < n
                invariant
                    i <= n,
                    n == a@.len(),
                    *v == JsonValue::Arr(*a),
                    out@.len() == i,
                    forall|j: int|
                        0 <= j < i ==> (#[trigger] TorrentWebSeed::spec_from_json(a@[j])) is Some,
                    forall|j: int|
                        0 <= j < i ==> out@[j] == TorrentWebSeed::spec_from_json(a@[j])->0,
                decreases n - i,
            {
                match TorrentWebSeed::from_json(&a[i]) {
                    Ok(l) => out.push(l),
                    Err(e) => {
                        proof {
                            assert(spec_web_seeds_from_json(a@) is None) by {
                                assert(TorrentWebSeed::spec_from_json(a@[i as int]) is None);
                            }
                        }
                        return Err(e);
                    },
                }
                i = i + 1;
            }
            proof {
                assert(out@ =~= Seq::new(
                    a@.len(),
                    |j: int| TorrentWebSeed::spec_from_json(a@[j])->0,
                ));
            }
            Ok(out)
        },
        _ => Err(bad_field("web seed list")),
    }
}

/// The strings of a JSON array, when every element is a string.
pub open spec fn spec_strings_from_json(s: Seq<JsonValue>) -> Option<Seq<String>> {
    if forall|i: int| 0 <= i < s.len() ==> (#[trigger] s[i]) is Str {
        Some(Seq::new(s.len(), |i: int| s[i]->Str_0))
    } else {
        None
    }
}

/// Reads a JSON array of strings.
pub fn strings_from_json(v: &JsonValue) -> (r: Result<Vec<String>, QBittorrentError>)
    ensures
        r is Ok <==> (*v matches JsonValue::Arr(a) && spec_strings_from_json(a@) is Some),
        r is Ok ==> (*v matches JsonValue::Arr(a) && Some(r->Ok_0@) == spec_strings_from_json(
            a@,
        )),
        r is Err ==> r->Err_0 is BadInput,
{
    match v {
        JsonValue::Arr(a) => {
            let n = a.len();
            let mut out: Vec<String> = Vec::new();
            let mut i: usize = 0;
            while i < n
                invariant
                    i <= n,
                    n == a@.len(),
                    *v == JsonValue::Arr(*a),
                    out@.len() == i,
                    forall|j: int| 0 <= j < i ==> (#[trigger] a@[j]) is Str,
                    forall|j: int| 0 <= j < i ==> out@[j] == a@[j]->Str_0,
                decreases n - i,
            {
                match &a[i] {
                    JsonValue::Str(s) => out.push(s.clone()),
                    _ => {
                        proof {
                            assert(spec_strings_from_json(a@) is None) by {
                                assert(!(a@[i as int] is Str));
                            }
                        }
                        return Err(bad_field("string list"));
                    },
                }
                i = i + 1;
            }
            proof {
                assert(out@ =~= Seq::new(a@.len(), |j: int| a@[j]->Str_0));
            }
            Ok(out)
        },
        _ => Err(bad_field("string list")),
    }
}

/// The categories of an object's members, when every member's value is one.
pub open spec fn spec_categories_from_json(m: Seq<(String, JsonValue)>) -> Option<
    Seq<(String, Category)>,
> {
    if forall|i: int| 0 <= i < m.len() ==> (#[trigger] Category::spec_from_json(m[i].1)) is Some {
        Some(Seq::new(m.len(), |i: int| (m[i].0, Category::spec_from_json(m[i].1)->0)))
    } else {
        None
    }
}

/// Reads a JSON object whose members are categories, keyed by name.
pub fn categories_from_json(v: &JsonValue) -> (r: Result<
    Vec<(String, Category)>,
    QBittorrentError,
>)
    ensures
        r is Ok <==> (*v matches JsonValue::Obj(m) && spec_categories_from_json(m@) is Some),
        r is Ok ==> (*v matches JsonValue::Obj(m) && Some(r->Ok_0@) == spec_categories_from_json(
            m@,
        )),
        r is Err ==> r->Err_0 is BadInput,
{
    match v {
        JsonValue::Obj(m) => {
            let n = m.len();
            let mut out: Vec<(String, Category)> = Vec::new();
            let mut i: usize = 0;
            while i < n
                invariant
                    i <= n,
                    n == m@.len(),
                    *v == JsonValue::Obj(*m),
                    out@.len() == i,
                    forall|j: int|
                        0 <= j < i ==> (#[trigger] Category::spec_from_json(m@[j].1)) is Some,
                    forall|j: int|
                        0 <= j < i ==> out@[j] == (m@[j].0, Category::spec_from_json(m@[j].1)->0),
                decreases n - i,
            {
                let pair = &m[i];
                match Category::from_json(&pair.1) {
                    Ok(c) => out.push((pair.0.clone(), c)),
                    Err(e) => {
                        proof {
                            assert(spec_categories_from_json(m@) is None) by {
                                assert(Category::spec_from_json(m@[i as int].1) is None);
                            }
                        }
                        return Err(e);
                    },
                }
                i = i + 1;
            }
            proof {
                assert(out@ =~= Seq::new(
                    m@.len(),
                    |j: int| (m@[j].0, Category::spec_from_json(m@[j].1)->0),
                ));
            }
            Ok(out)
        },
        _ => Err(bad_field("category map")),
    }
}

/// Finds the position of the member named `key`.
fn obj_index(m: &Vec<(String, JsonValue)>, key: &str) -> (r: Option<usize>)
    ensures
        match r {
            Some(j) => j < m@.len() && lookup(m@, key@) == Some(m@[j as int].1),
            None => lookup(m@, key@) is None,
        },
{
    let key_string = String::from_str(key);
    let n = m.len();
    proof {
        assert(m@.subrange(0, n as int) =~= m@);
    }
    let mut i: usize = 0;
    while i < n
        invariant
            i <= n,
            n == m@.len(),
            key_string@ == key@,
            lookup(m@, key@) == lookup(m@.subrange(i as int, n as int), key@),
        decreases n - i,
    {
        let pair = &m[i];
        if pair.0 == key_string {
            proof {
                assert(m@.subrange(i as int, n as int)[0] == m@[i as int]);
            }
            return Some(i);
        }
        proof {
            assert(m@.subrange(i as int, n as int).drop_first() =~= m@.subrange(i + 1, n as int));
        }
        i = i + 1;
    }
    proof {
        assert(m@.subrange(n as int, n as int) =~= Seq::<(String, JsonValue)>::empty());
    }
    None
}

/// An incremental snapshot of the daemon's state. Torrent entries stay in
/// their raw JSON form, keyed by hash; `rid` is the cursor to hand to the
/// next sync request.
#[derive(Debug)]
pub struct SyncMainData {
    pub rid: usize,
    pub full_update: bool,
    pub torrents: Vec<(String, JsonValue)>,
    pub torrents_removed: Vec<String>,
    pub categories: Vec<(String, Category)>,
    pub categories_removed: Vec<String>,
    pub tags: Vec<String>,
    pub tags_removed: Vec<String>,
    pub server_state: GlobalTransferInfo,
}

/// Whether a JSON value has everything a sync snapshot needs, with the
/// right shapes.
pub open spec fn spec_sync_decodes(v: JsonValue) -> bool {
    &&& field(v, "rid"@) matches Some(JsonValue::Num(i)) && 0 <= i <= usize::MAX
    &&& field(v, "full_update"@) matches Some(JsonValue::Bool(_))
    &&& field(v, "torrents"@) matches Some(JsonValue::Obj(_))
    &&& field(v, "torrents_removed"@) matches Some(JsonValue::Arr(a)) && spec_strings_from_json(
        a@,
    ) is Some
    &&& field(v, "categories"@) matches Some(JsonValue::Obj(cm)) && spec_categories_from_json(
        cm@,
    ) is Some
    &&& field(v, "categories_removed"@) matches Some(JsonValue::Arr(a)) && spec_strings_from_json(
        a@,
    ) is Some
    &&& field(v, "tags"@) matches Some(JsonValue::Arr(a)) && spec_strings_from_json(a@) is Some
    &&& field(v, "tags_removed"@) matches Some(JsonValue::Arr(a)) && spec_strings_from_json(
        a@,
    ) is Some
    &&& field(v, "server_state"@) matches Some(sv) && GlobalTransferInfo::spec_from_json(
        sv,
    ) is Some
}

/// Whether `d` is exactly the snapshot a JSON value holds.
pub open spec fn spec_sync_value_matches(v: JsonValue, d: SyncMainData) -> bool {
    &&& field(v, "rid"@) matches Some(JsonValue::Num(i)) && d.rid as int == i as int
    &&& field(v, "full_update"@) matches Some(JsonValue::Bool(b)) && d.full_update == b
    &&& field(v, "torrents"@) matches Some(JsonValue::Obj(t)) && d.torrents == t
    &&& field(v, "torrents_removed"@) matches Some(JsonValue::Arr(a)) && Some(d.torrents_removed@)
        == spec_strings_from_json(a@)
    &&& field(v, "categories"@) matches Some(JsonValue::Obj(cm)) && Some(d.categories@)
        == spec_categories_from_json(cm@)
    &&& field(v, "categories_removed"@) matches Some(JsonValue::Arr(a)) && Some(
        d.categories_removed@,
    ) == spec_strings_from_json(a@)
    &&& field(v, "tags"@) matches Some(JsonValue::Arr(a)) && Some(d.tags@)
        == spec_strings_from_json(a@)
    &&& field(v, "tags_removed"@) matches Some(JsonValue::Arr(a)) && Some(d.tags_removed@)
        == spec_strings_from_json(a@)
    &&& field(v, "server_state"@) matches Some(sv) && Some(d.server_state)
        == GlobalTransferInfo::spec_from_json(sv)
}

impl SyncMainData {
    /// Reads a sync snapshot out of its JSON form, keeping the torrent
    /// entries raw.
    pub fn from_json(v: JsonValue) -> (r: Result<SyncMainData, QBittorrentError>)
        ensures
            r is Ok <==> spec_sync_decodes(v),
            r is Ok ==> spec_sync_value_matches(v, r->Ok_0),
            r is Err ==> r->Err_0 is BadInput,
    {
        match v {
            JsonValue::Obj(mut m) => {
                let ghost m0 = m;
                let rid = get_usize(&m, "rid")?;
                let full_update = get_bool(&m, "full_update")?;
                let torrents_removed = match obj_get(&m, "torrents_removed") {
                    Some(x) => strings_from_json(x)?,
                    None => {
                        return Err(bad_field("torrents_removed"));
                    },
                };
                let categories = match obj_get(&m, "categories") {
                    Some(x) => categories_from_json(x)?,
                    None => {
                        return Err(bad_field("categories"));
                    },
                };
                let categories_removed = match obj_get(&m, "categories_removed") {
                    Some(x) => strings_from_json(x)?,
                    None => {
                        return Err(bad_field("categories_removed"));
                    },
                };
                let tags = match obj_get(&m, "tags") {
                    Some(x) => strings_from_json(x)?,
                    None => {
                        return Err(bad_field("tags"));
                    },
                };
                let tags_removed = match obj_get(&m, "tags_removed") {
                    Some(x) => strings_from_json(x)?,
                    None => {
                        return Err(bad_field("tags_removed"));
                    },
                };
                let server_state = match obj_get(&m, "server_state") {
                    Some(x) => GlobalTransferInfo::from_json(x)?,
                    None => {
                        return Err(bad_field("server_state"));
                    },
                };
                let ti = match obj_index(&m, "torrents") {
                    Some(j) => j,
                    None => {
                        return Err(bad_field("torrents"));
                    },
                };
                let member = m.swap_remove(ti);
                let torrents = match member.1 {
                    JsonValue::Obj(t) => t,
                    _ => {
                        return Err(bad_field("torrents"));
                    },
                };
                Ok(
                    SyncMainData {
                        rid,
                        full_update,
                        torrents,
                        torrents_removed,
                        categories,
                        categories_removed,
                        tags,
                        tags_removed,
                        server_state,
                    },
                )
            },
            _ => Err(bad_field("rid")),
        }
    }
}

/// Which slice of the torrent list to ask for.
#[derive(Debug, Clone, PartialEq, Eq, Structural)]
pub enum TorrentListFilter {
    All,
    Downloading,
    Seeding,
    Completed,
    Paused,
    Active,
    Inactive,
    Resumed,
    Stalled,
    StalledUploading,
    StalledDownloading,
    Errored,
}

/// The word each filter puts into the query string.
pub open spec fn spec_filter_text(f: TorrentListFilter) -> Seq<char> {
    match f {
        TorrentListFilter::All => "all"@,
        TorrentListFilter::Downloading => "downloading"@,
        TorrentListFilter::Seeding => "seeding"@,
        TorrentListFilter::Completed => "completed"@,
        TorrentListFilter::Paused => "paused"@,
        TorrentListFilter::Active => "active"@,
        TorrentListFilter::Inactive => "inactive"@,
        TorrentListFilter::Resumed => "resumed"@,
        TorrentListFilter::Stalled => "stalled"@,
        TorrentListFilter::StalledUploading => "stalled_uploading"@,
        TorrentListFilter::StalledDownloading => "stalled_downloading"@,
        TorrentListFilter::Errored => "errored"@,
    }
}

impl TorrentListFilter {
    /// The word this filter puts into the query string.
    pub fn to_string(&self) -> (r: String)
        ensures
            r@ == spec_filter_text(*self),
    {
        match self {
            TorrentListFilter::All => String::from_str("all"),
            TorrentListFilter::Downloading => String::from_str("downloading"),
            TorrentListFilter::Seeding => String::from_str("seeding"),
            TorrentListFilter::Completed => String::from_str("completed"),
            TorrentListFilter::Paused => String::from_str("paused"),
            TorrentListFilter::Active => String::from_str("active"),
            TorrentListFilter::Inactive => String::from_str("inactive"),
            TorrentListFilter::Resumed => String::from_str("resumed"),
            TorrentListFilter::Stalled => String::from_str("stalled"),
            TorrentListFilter::StalledUploading => String::from_str("stalled_uploading"),
            TorrentListFilter::StalledDownloading => String::from_str("stalled_downloading"),
            TorrentListFilter::Errored => String::from_str("errored"),
        }
    }
}

/// How to filter, sort and slice the torrent list.
#[derive(Debug, Clone)]
pub struct TorrentListParams {
    pub filter: TorrentListFilter,
    pub category: String,
    pub tag: String,
    pub sort: Option<String>,
    pub reverse: bool,
    pub limit: Option<usize>,
    pub offset: Option<isize>,
    pub hashes: Option<String>,
}

impl Default for TorrentListParams {
    /// Everything: no category, no tag, no sort, no slicing, natural order.
    fn default() -> (r: Self)
        ensures
            r.filter == TorrentListFilter::All,
            r.category@ == Seq::<char>::empty(),
            r.tag@ == Seq::<char>::empty(),
            r.sort is None,
            !r.reverse,
            r.limit is None,
            r.offset is None,
            r.hashes is None,
    {
        TorrentListParams {
            filter: TorrentListFilter::All,
            category: String::new(),
            tag: String::new(),
            sort: None,
            reverse: false,
            limit: None,
            offset: None,
            hashes: None,
        }
    }
}

} // verus!
