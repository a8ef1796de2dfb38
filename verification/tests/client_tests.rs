use qbittorrent_web_api::client::login_body;
use qbittorrent_web_api::client::login_result;
use qbittorrent_web_api::client::logs_query;
use qbittorrent_web_api::client::peer_logs_query;
use qbittorrent_web_api::client::sync_query;
use qbittorrent_web_api::client::limit_query;
use qbittorrent_web_api::client::ban_peers_query;
use qbittorrent_web_api::client::hash_query;
use qbittorrent_web_api::client::hashes_query;
use qbittorrent_web_api::client::delete_query;
use qbittorrent_web_api::client::torrent_list_query;
use qbittorrent_web_api::client::expect_success_or_bad_input;
use qbittorrent_web_api::client::expect_success_or_bad_request;
use qbittorrent_web_api::client::preferences_result;
use qbittorrent_web_api::client::parse_limit_text;
use qbittorrent_web_api::client::speed_limits_enabled;
use qbittorrent_web_api::client::endpoint_url;
use qbittorrent_web_api::client::url_with_query;
use qbittorrent_web_api::client::ApiEndpoint;
use qbittorrent_web_api::models::LogParams;
use qbittorrent_web_api::models::TorrentListFilter;
use qbittorrent_web_api::models::TorrentListParams;
use qbittorrent_web_api::urls::build_url;
use qbittorrent_web_api::urls::validate_base_url;
use qbittorrent_web_api::QBittorrentError;

#[test]
fn base_url_accepts_absolute_urls() {
    let u = validate_base_url("http://localhost:8080").unwrap();
    assert_eq!(u, "http://localhost:8080/");
    assert!(validate_base_url("https://example.net/qbt/").is_ok());
}

#[test]
fn base_url_rejects_garbage() {
    let e = validate_base_url("not a url").unwrap_err();
    assert!(matches!(e, QBittorrentError::Url(_)));
    let e2 = validate_base_url("/only/a/path").unwrap_err();
    assert!(matches!(e2, QBittorrentError::Url(_)));
}

#[test]
fn join_builds_absolute_urls() {
    let u = build_url("http://localhost:8080", "/api/v2/auth/login").unwrap();
    assert_eq!(u, "http://localhost:8080/api/v2/auth/login");
    // An absolute endpoint path replaces whatever path the base carried.
    let v = build_url("http://host/sub/dir", "/api/v2/log/main").unwrap();
    assert_eq!(v, "http://host/api/v2/log/main");
}

#[test]
fn endpoint_urls_follow_the_fixed_paths() {
    let base = "http://localhost:8080";
    assert_eq!(
        endpoint_url(base, ApiEndpoint::AuthLogin).unwrap(),
        "http://localhost:8080/api/v2/auth/login"
    );
    assert_eq!(
        endpoint_url(base, ApiEndpoint::AppWebApiVersion).unwrap(),
        "http://localhost:8080/api/v2/app/webapiVersion"
    );
    assert_eq!(
        endpoint_url(base, ApiEndpoint::SyncMainData).unwrap(),
        "http://localhost:8080/api/v2/sync/maindata"
    );
    assert_eq!(
        endpoint_url(base, ApiEndpoint::TorrentsDelete).unwrap(),
        "http://localhost:8080/api/v2/torrents/delete"
    );
}

#[test]
fn query_is_glued_with_a_question_mark() {
    let full = url_with_query("http://h/api/v2/log/main", "last_known_id=-1");
    assert_eq!(full, "http://h/api/v2/log/main?last_known_id=-1");
}

#[test]
fn login_body_carries_credentials_verbatim() {
    assert_eq!(login_body("admin", "adminadmin"), "username=admin&password=adminadmin");
    assert_eq!(login_body("", ""), "username=&password=");
}

#[test]
fn login_succeeds_on_2xx_only() {
    assert!(login_result(200).is_ok());
    assert!(login_result(204).is_ok());
    assert!(login_result(299).is_ok());
    assert!(matches!(login_result(401), Err(QBittorrentError::AuthFailed)));
    assert!(matches!(login_result(403), Err(QBittorrentError::AuthFailed)));
    assert!(matches!(login_result(500), Err(QBittorrentError::AuthFailed)));
    assert!(matches!(login_result(199), Err(QBittorrentError::AuthFailed)));
}

#[test]
fn logs_query_with_default_params() {
    let q = logs_query(&LogParams::default());
    assert_eq!(q, "normal=true&info=true&warning=true&critical=true&last_known_id=-1");
}

#[test]
fn logs_query_carries_the_cursor() {
    let params = LogParams { last_known_id: 5, ..LogParams::default() };
    let q = logs_query(&params);
    assert_eq!(q, "normal=true&info=true&warning=true&critical=true&last_known_id=5");
}

#[test]
fn logs_query_switches_severities_off() {
    let params = LogParams {
        normal: false,
        info: false,
        warning: true,
        critical: false,
        last_known_id: -1,
    };
    let q = logs_query(&params);
    assert_eq!(q, "normal=false&info=false&warning=true&critical=false&last_known_id=-1");
}

#[test]
fn peer_logs_query_defaults_the_cursor_to_minus_one() {
    assert_eq!(peer_logs_query(None), "last_known_id=-1");
    assert_eq!(peer_logs_query(Some(7)), "last_known_id=7");
    assert_eq!(peer_logs_query(Some(0)), "last_known_id=0");
}

#[test]
fn sync_query_defaults_to_a_full_snapshot() {
    assert_eq!(sync_query(None), "rid=0");
    assert_eq!(sync_query(Some(3)), "rid=3");
    assert_eq!(sync_query(Some(18446744073709551615)), "rid=18446744073709551615");
}

#[test]
fn torrent_list_query_with_default_params() {
    let q = torrent_list_query(&TorrentListParams::default());
    assert_eq!(q, "filter=all&category=&tag=&reverse=false");
}

#[test]
fn torrent_list_query_with_everything_set() {
    let params = TorrentListParams {
        filter: TorrentListFilter::Downloading,
        category: "my cat".to_string(),
        tag: "a&b".to_string(),
        sort: Some("name".to_string()),
        reverse: true,
        limit: Some(10),
        offset: Some(-2),
        hashes: Some("h1|h2".to_string()),
    };
    let q = torrent_list_query(&params);
    assert_eq!(
        q,
        "filter=downloading&category=my%2520cat&tag=a%2526b&reverse=true&sort=name&limit=10&offset=-2&hashes=h1%7Ch2"
    );
}

#[test]
fn ban_peers_query_encodes_colons_and_pipes() {
    let q = ban_peers_query("1.2.3.4:111|5.6.7.8:222");
    assert_eq!(q, "peers=1.2.3.4%3A111%7C5.6.7.8%3A222");
}

#[test]
fn hash_queries_are_form_encoded() {
    assert_eq!(hash_query("c9e15763f722f23e98a29decdfae341b98d53056"),
        "hash=c9e15763f722f23e98a29decdfae341b98d53056");
    assert_eq!(hash_query("abc def"), "hash=abc+def");
    assert_eq!(hash_query("a%b"), "hash=a%25b");
    assert_eq!(hashes_query("all"), "hashes=all");
    assert_eq!(hashes_query("h1|h2"), "hashes=h1%7Ch2");
}

#[test]
fn delete_query_carries_the_file_switch() {
    assert_eq!(delete_query("all", true), "hashes=all&deleteFiles=true");
    assert_eq!(delete_query("h1|h2", false), "hashes=h1%7Ch2&deleteFiles=false");
}

#[test]
fn limit_query_renders_the_number() {
    assert_eq!(limit_query(0), "limit=0");
    assert_eq!(limit_query(123456), "limit=123456");
}

#[test]
fn limit_text_parses_unsigned_decimals() {
    assert_eq!(parse_limit_text("0").unwrap(), 0);
    assert_eq!(parse_limit_text("12345").unwrap(), 12345);
    assert_eq!(parse_limit_text("+7").unwrap(), 7);
    assert_eq!(parse_limit_text("18446744073709551615").unwrap(), 18446744073709551615);
}

#[test]
fn limit_text_rejects_everything_else() {
    for bad in ["", "+", "12a", " 12", "-3", "1.5", "18446744073709551616"] {
        match parse_limit_text(bad) {
            Err(QBittorrentError::ParseInt(t)) => assert_eq!(t, bad),
            other => panic!("expected a ParseInt error for {bad:?}, got {other:?}"),
        }
    }
}

#[test]
fn speed_limits_state_is_the_text_one() {
    assert!(speed_limits_enabled("1"));
    assert!(!speed_limits_enabled("0"));
    assert!(!speed_limits_enabled(""));
    assert!(!speed_limits_enabled("10"));
}

#[test]
fn status_gates_map_failures_to_their_errors() {
    assert!(expect_success_or_bad_request(200).is_ok());
    assert!(matches!(expect_success_or_bad_request(404), Err(QBittorrentError::BadRequest)));
    assert!(expect_success_or_bad_input(204).is_ok());
    match expect_success_or_bad_input(404) {
        Err(QBittorrentError::BadInput(t)) => assert_eq!(t, "torrent hash was not found"),
        other => panic!("expected a BadInput error, got {other:?}"),
    }
    assert!(preferences_result(200).is_ok());
    assert!(preferences_result(500).is_ok());
    assert!(matches!(preferences_result(400), Err(QBittorrentError::BadRequest)));
}

#[test]
fn error_messages_name_the_failure() {
    assert_eq!(QBittorrentError::AuthFailed.message(), "failed to log in");
    assert_eq!(QBittorrentError::BadRequest.message(), "bad request http error occured");
    assert_eq!(
        QBittorrentError::ParseInt("x1".to_string()).message(),
        "failed to parse integer: x1"
    );
    assert_eq!(
        QBittorrentError::BadInput("bad hash".to_string()).message(),
        "bad input error occured: bad hash"
    );
    assert_eq!(
        QBittorrentError::Url("relative URL without a base".to_string()).message(),
        "url error occured: relative URL without a base"
    );
    assert_eq!(
        QBittorrentError::Reqwest("connection refused".to_string()).message(),
        "reqwest error occured: connection refused"
    );
}
