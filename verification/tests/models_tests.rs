use qbittorrent_web_api::client::sync_query;
use qbittorrent_web_api::models::AppBuildInfo;
use qbittorrent_web_api::models::Category;
use qbittorrent_web_api::models::GlobalTransferInfo;
use qbittorrent_web_api::models::Log;
use qbittorrent_web_api::models::LogParams;
use qbittorrent_web_api::models::PeerLog;
use qbittorrent_web_api::models::SyncMainData;
use qbittorrent_web_api::models::TorrentListFilter;
use qbittorrent_web_api::models::TorrentListParams;
use qbittorrent_web_api::models::TorrentTracker;
use qbittorrent_web_api::models::TorrentWebSeed;
use qbittorrent_web_api::models::logs_from_json;
use qbittorrent_web_api::models::trackers_from_json;
use qbittorrent_web_api::models::web_seeds_from_json;
use qbittorrent_web_api::JsonValue;
use qbittorrent_web_api::QBittorrentError;

fn str_member(key: &str, value: &str) -> (String, JsonValue) {
    (key.to_string(), JsonValue::Str(value.to_string()))
}

fn num_member(key: &str, value: i64) -> (String, JsonValue) {
    (key.to_string(), JsonValue::Num(value))
}

fn log_entry(id: i64, message: &str) -> JsonValue {
    JsonValue::Obj(vec![
        num_member("id", id),
        str_member("message", message),
        num_member("timestamp", 1680000000),
        num_member("type", 2),
    ])
}

#[test]
fn log_reads_its_fields() {
    let l = Log::from_json(&log_entry(14, "started")).unwrap();
    assert_eq!(l.id, 14);
    assert_eq!(l.message, "started");
    assert_eq!(l.timestamp, 1680000000);
    assert_eq!(l.log_type, 2);
}

#[test]
fn log_rejects_missing_or_mistyped_fields() {
    let missing = JsonValue::Obj(vec![num_member("id", 1)]);
    assert!(matches!(Log::from_json(&missing), Err(QBittorrentError::BadInput(_))));
    let mistyped = JsonValue::Obj(vec![
        str_member("id", "1"),
        str_member("message", "m"),
        num_member("timestamp", 0),
        num_member("type", 0),
    ]);
    assert!(matches!(Log::from_json(&mistyped), Err(QBittorrentError::BadInput(_))));
    let negative = JsonValue::Obj(vec![
        num_member("id", -1),
        str_member("message", "m"),
        num_member("timestamp", 0),
        num_member("type", 0),
    ]);
    assert!(matches!(Log::from_json(&negative), Err(QBittorrentError::BadInput(_))));
    assert!(matches!(Log::from_json(&JsonValue::Null), Err(QBittorrentError::BadInput(_))));
}

#[test]
fn log_list_keeps_every_entry_in_order() {
    let list = JsonValue::Arr(vec![log_entry(6, "a"), log_entry(7, "b")]);
    let logs = logs_from_json(&list).unwrap();
    assert_eq!(logs.len(), 2);
    assert_eq!(logs[0].id, 6);
    assert_eq!(logs[1].message, "b");
    let broken = JsonValue::Arr(vec![log_entry(6, "a"), JsonValue::Num(5)]);
    assert!(matches!(logs_from_json(&broken), Err(QBittorrentError::BadInput(_))));
    assert!(matches!(logs_from_json(&JsonValue::Obj(vec![])), Err(
        QBittorrentError::BadInput(_)
    )));
}

#[test]
fn peer_log_reads_its_fields() {
    let entry = JsonValue::Obj(vec![
        num_member("id", 3),
        str_member("ip", "10.0.0.2:6881"),
        num_member("timestamp", 1680000001),
        ("blocked".to_string(), JsonValue::Bool(true)),
        str_member("reason", "banned"),
    ]);
    let p = PeerLog::from_json(&entry).unwrap();
    assert_eq!(p.id, 3);
    assert_eq!(p.ip, "10.0.0.2:6881");
    assert!(p.blocked);
    assert_eq!(p.reason, "banned");
}

#[test]
fn build_info_reads_its_fields() {
    let v = JsonValue::Obj(vec![
        str_member("qt", "5.15.2"),
        str_member("libtorrent", "1.2.11.0"),
        str_member("boost", "1.76.0"),
        str_member("openssl", "1.1.1k"),
        num_member("bitness", 64),
    ]);
    let b = AppBuildInfo::from_json(&v).unwrap();
    assert_eq!(b.qt, "5.15.2");
    assert_eq!(b.libtorrent, "1.2.11.0");
    assert_eq!(b.boost, "1.76.0");
    assert_eq!(b.openssl, "1.1.1k");
    assert_eq!(b.bitness, 64);
}

fn server_state_value() -> JsonValue {
    JsonValue::Obj(vec![
        num_member("dl_info_speed", 1000),
        num_member("dl_info_data", 5000000),
        num_member("up_info_speed", 200),
        num_member("up_info_data", 300000),
        num_member("dl_rate_limit", 0),
        num_member("up_rate_limit", 1024),
        num_member("dht_nodes", 300),
        str_member("connection_status", "connected"),
    ])
}

#[test]
fn transfer_info_reads_its_fields() {
    let g = GlobalTransferInfo::from_json(&server_state_value()).unwrap();
    assert_eq!(g.dl_info_speed, 1000);
    assert_eq!(g.up_rate_limit, 1024);
    assert_eq!(g.dht_nodes, 300);
    assert_eq!(g.connection_status, "connected");
}

#[test]
fn category_reads_the_camel_cased_save_path() {
    let v = JsonValue::Obj(vec![str_member("name", "linux"), str_member("savePath", "/dl/linux")]);
    let c = Category::from_json(&v).unwrap();
    assert_eq!(c.name, "linux");
    assert_eq!(c.save_path, "/dl/linux");
    let wrong_key = JsonValue::Obj(vec![
        str_member("name", "linux"),
        str_member("save_path", "/dl/linux"),
    ]);
    assert!(matches!(Category::from_json(&wrong_key), Err(QBittorrentError::BadInput(_))));
}

#[test]
fn tracker_reads_its_fields_including_a_negative_tier() {
    let v = JsonValue::Obj(vec![
        str_member("url", "** [DHT] **"),
        num_member("status", 2),
        num_member("tier", -1),
        num_member("num_peers", 12),
        num_member("num_seeds", 5),
        num_member("num_leeches", 7),
        num_member("num_downloaded", 9),
        str_member("msg", ""),
    ]);
    let t = TorrentTracker::from_json(&v).unwrap();
    assert_eq!(t.url, "** [DHT] **");
    assert_eq!(t.status, 2);
    assert_eq!(t.tier, -1);
    assert_eq!(t.num_peers, 12);
    assert_eq!(t.msg, "");
    let list = JsonValue::Arr(vec![]);
    assert_eq!(trackers_from_json(&list).unwrap().len(), 0);
}

#[test]
fn web_seeds_read_their_urls() {
    let list = JsonValue::Arr(vec![
        JsonValue::Obj(vec![str_member("url", "http://seed.one/f")]),
        JsonValue::Obj(vec![str_member("url", "http://seed.two/f")]),
    ]);
    let seeds = web_seeds_from_json(&list).unwrap();
    assert_eq!(seeds.len(), 2);
    assert_eq!(seeds[0].url, "http://seed.one/f");
    assert_eq!(seeds[1].url, "http://seed.two/f");
    let _ = TorrentWebSeed { url: String::new() };
}

fn sample_sync_payload() -> JsonValue {
    JsonValue::Obj(vec![
        num_member("rid", 3),
        ("full_update".to_string(), JsonValue::Bool(true)),
        ("torrents".to_string(), JsonValue::Obj(vec![(
            "c9e15763f722f23e98a29decdfae341b98d53056".to_string(),
            JsonValue::Obj(vec![
                str_member("name", "debian.iso"),
                num_member("size", 396361728),
                ("progress".to_string(), JsonValue::RawNum("0.5".to_string())),
                ("availability".to_string(), JsonValue::RawNum("1.25".to_string())),
            ]),
        )])),
        ("torrents_removed".to_string(), JsonValue::Arr(vec![JsonValue::Str(
            "0000000000000000000000000000000000000000".to_string(),
        )])),
        ("categories".to_string(), JsonValue::Obj(vec![(
            "linux".to_string(),
            JsonValue::Obj(vec![str_member("name", "linux"), str_member("savePath", "/dl/linux")]),
        )])),
        ("categories_removed".to_string(), JsonValue::Arr(vec![])),
        ("tags".to_string(), JsonValue::Arr(vec![JsonValue::Str("iso".to_string())])),
        ("tags_removed".to_string(), JsonValue::Arr(vec![])),
        ("server_state".to_string(), server_state_value()),
    ])
}

#[test]
fn sync_snapshot_reads_every_part() {
    let d = SyncMainData::from_json(sample_sync_payload()).unwrap();
    assert!(d.full_update);
    assert_eq!(d.torrents.len(), 1);
    assert_eq!(d.torrents[0].0, "c9e15763f722f23e98a29decdfae341b98d53056");
    assert_eq!(d.torrents_removed, vec!["0000000000000000000000000000000000000000".to_string()]);
    assert_eq!(d.categories.len(), 1);
    assert_eq!(d.categories[0].0, "linux");
    assert_eq!(d.categories[0].1.save_path, "/dl/linux");
    assert!(d.categories_removed.is_empty());
    assert_eq!(d.tags, vec!["iso".to_string()]);
    assert!(d.tags_removed.is_empty());
    assert_eq!(d.server_state.connection_status, "connected");
}

#[test]
fn sync_rid_round_trips_into_the_next_request() {
    let d = SyncMainData::from_json(sample_sync_payload()).unwrap();
    assert_eq!(d.rid, 3);
    assert_eq!(sync_query(Some(d.rid)), "rid=3");
}

#[test]
fn sync_snapshot_rejects_a_missing_part() {
    let incomplete = JsonValue::Obj(vec![num_member("rid", 3)]);
    assert!(matches!(SyncMainData::from_json(incomplete), Err(QBittorrentError::BadInput(_))));
    let wrong_shape = JsonValue::Arr(vec![]);
    assert!(matches!(SyncMainData::from_json(wrong_shape), Err(QBittorrentError::BadInput(_))));
}

#[test]
fn duplicate_members_read_the_first_one() {
    let v = JsonValue::Obj(vec![
        num_member("id", 1),
        num_member("id", 2),
        str_member("message", "m"),
        num_member("timestamp", 0),
        num_member("type", 0),
    ]);
    assert_eq!(Log::from_json(&v).unwrap().id, 1);
}

#[test]
fn log_params_default_asks_for_everything() {
    let p = LogParams::default();
    assert!(p.normal);
    assert!(p.info);
    assert!(p.warning);
    assert!(p.critical);
    assert_eq!(p.last_known_id, -1);
}

#[test]
fn torrent_list_params_default_filters_nothing() {
    let p = TorrentListParams::default();
    assert!(matches!(p.filter, TorrentListFilter::All));
    assert_eq!(p.category, "");
    assert_eq!(p.tag, "");
    assert!(p.sort.is_none());
    assert!(!p.reverse);
    assert!(p.limit.is_none());
    assert!(p.offset.is_none());
    assert!(p.hashes.is_none());
}

#[test]
fn filters_render_their_query_words() {
    let cases = [
        (TorrentListFilter::All, "all"),
        (TorrentListFilter::Downloading, "downloading"),
        (TorrentListFilter::Seeding, "seeding"),
        (TorrentListFilter::Completed, "completed"),
        (TorrentListFilter::Paused, "paused"),
        (TorrentListFilter::Active, "active"),
        (TorrentListFilter::Inactive, "inactive"),
        (TorrentListFilter::Resumed, "resumed"),
        (TorrentListFilter::Stalled, "stalled"),
        (TorrentListFilter::StalledUploading, "stalled_uploading"),
        (TorrentListFilter::StalledDownloading, "stalled_downloading"),
        (TorrentListFilter::Errored, "errored"),
    ];
    for (filter, word) in cases {
        assert_eq!(filter.to_string(), word);
    }
}
