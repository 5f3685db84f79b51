use cli_downloader::request::build_request_body;
use cli_downloader::request::resolver_endpoint;
use cli_downloader::request::DownloadRequest;
use cli_downloader::request::Mode;

fn base_request() -> DownloadRequest {
    DownloadRequest {
        url: "https://example.com/v/1".to_string(),
        mode: Mode::Auto,
        vquality: "1080p".to_string(),
        vcodec: "h264".to_string(),
        aformat: "mp3".to_string(),
        ttwatermark: false,
        fullaudio: false,
        mute: false,
        dublang: false,
    }
}

#[test]
fn base_keys_always_present() {
    let body = build_request_body(&base_request());
    assert_eq!(body.len(), 4);
    assert_eq!(body.get("url"), Some(&"https://example.com/v/1".to_string()));
    assert_eq!(body.get("vCodec"), Some(&"h264".to_string()));
    assert_eq!(body.get("vQuality"), Some(&"1080p".to_string()));
    assert_eq!(body.get("aFormat"), Some(&"mp3".to_string()));
}

#[test]
fn false_flags_leave_keys_out() {
    let body = build_request_body(&base_request());
    assert_eq!(body.get("isAudioOnly"), None);
    assert_eq!(body.get("isNoTTWatermark"), None);
    assert_eq!(body.get("isTTFullAudio"), None);
    assert_eq!(body.get("isAudioMuted"), None);
    assert_eq!(body.get("dubLang"), None);
}

#[test]
fn toggling_a_flag_toggles_presence_never_value() {
    let mut req = base_request();
    req.mute = true;
    let body = build_request_body(&req);
    assert_eq!(body.get("isAudioMuted"), Some(&"true".to_string()));
    req.mute = false;
    let body = build_request_body(&req);
    assert_eq!(body.get("isAudioMuted"), None);
}

#[test]
fn every_true_flag_contributes_its_key() {
    let mut req = base_request();
    req.ttwatermark = true;
    req.fullaudio = true;
    req.mute = true;
    req.dublang = true;
    let body = build_request_body(&req);
    assert_eq!(body.len(), 8);
    assert_eq!(body.get("isNoTTWatermark"), Some(&"true".to_string()));
    assert_eq!(body.get("isTTFullAudio"), Some(&"true".to_string()));
    assert_eq!(body.get("isAudioMuted"), Some(&"true".to_string()));
    assert_eq!(body.get("dubLang"), Some(&"true".to_string()));
}

#[test]
fn audio_only_mode_sets_is_audio_only() {
    let mut req = base_request();
    req.mode = Mode::AudioOnly;
    let body = build_request_body(&req);
    assert_eq!(body.get("isAudioOnly"), Some(&"true".to_string()));
}

#[test]
fn auto_mode_leaves_is_audio_only_out() {
    let body = build_request_body(&base_request());
    assert_eq!(body.get("isAudioOnly"), None);
}

#[test]
fn pair_order_is_fixed() {
    let mut req = base_request();
    req.mode = Mode::AudioOnly;
    req.dublang = true;
    let body = build_request_body(&req);
    assert_eq!(body.len(), 6);
    assert_eq!(body.key_at(0), "url");
    assert_eq!(body.key_at(1), "vCodec");
    assert_eq!(body.key_at(2), "vQuality");
    assert_eq!(body.key_at(3), "aFormat");
    assert_eq!(body.key_at(4), "isAudioOnly");
    assert_eq!(body.key_at(5), "dubLang");
    assert_eq!(body.value_at(4), "true");
    assert_eq!(body.value_at(5), "true");
}

#[test]
fn body_serializes_to_a_json_object() {
    let mut req = base_request();
    req.url = "https://x/y".to_string();
    let body = build_request_body(&req);
    assert_eq!(
        body.to_json(),
        "{\"aFormat\":\"mp3\",\"url\":\"https://x/y\",\"vCodec\":\"h264\",\"vQuality\":\"1080p\"}"
    );
}

#[test]
fn endpoint_is_built_from_the_host() {
    assert_eq!(resolver_endpoint("co.wuk.sh"), "https://co.wuk.sh/api/json");
    assert_eq!(resolver_endpoint("example.org"), "https://example.org/api/json");
}
