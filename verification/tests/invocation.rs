use cli_downloader::config::assemble_invocation;
use cli_downloader::error::ErrorKind;
use cli_downloader::request::Mode;

#[test]
fn missing_mode_is_a_configuration_error() {
    let e = assemble_invocation(
        None,
        None,
        None,
        "/home/u",
        Some("https://example.com/v"),
        None,
        None,
        None,
        false,
        false,
        false,
        false,
    )
    .err()
    .unwrap();
    assert_eq!(e.kind(), ErrorKind::Configuration);
    assert_eq!(e.message(), "you didn't specify a mode");
}

#[test]
fn missing_url_is_a_configuration_error() {
    let e = assemble_invocation(
        Some("auto"),
        None,
        None,
        "/home/u",
        None,
        None,
        None,
        None,
        false,
        false,
        false,
        false,
    )
    .err()
    .unwrap();
    assert_eq!(e.kind(), ErrorKind::Configuration);
    assert_eq!(e.message(), "you didn't specify a video url");
}

#[test]
fn unknown_mode_is_a_configuration_error() {
    let e = assemble_invocation(
        Some("video"),
        None,
        None,
        "/home/u",
        Some("https://example.com/v"),
        None,
        None,
        None,
        false,
        false,
        false,
        false,
    )
    .err()
    .unwrap();
    assert_eq!(e.kind(), ErrorKind::Configuration);
    assert_eq!(e.message(), "invalid mode. options: auto, audio");
}

#[test]
fn absent_arguments_get_the_documented_defaults() {
    let inv = assemble_invocation(
        Some("auto"),
        None,
        None,
        "/home/u",
        Some("https://example.com/v"),
        None,
        None,
        None,
        false,
        false,
        false,
        false,
    )
    .ok()
    .unwrap();
    assert_eq!(inv.host, "co.wuk.sh");
    assert_eq!(inv.dest_dir, "/home/u/Downloads");
    assert_eq!(inv.request.mode, Mode::Auto);
    assert_eq!(inv.request.url, "https://example.com/v");
    assert_eq!(inv.request.vquality, "1080p");
    assert_eq!(inv.request.vcodec, "h264");
    assert_eq!(inv.request.aformat, "mp3");
}

#[test]
fn explicit_arguments_win_over_defaults() {
    let inv = assemble_invocation(
        Some("audio"),
        Some("api.example.net"),
        Some("/data/dl"),
        "/home/u",
        Some("https://example.com/v"),
        Some("720p"),
        Some("av1"),
        Some("opus"),
        true,
        true,
        true,
        true,
    )
    .ok()
    .unwrap();
    assert_eq!(inv.host, "api.example.net");
    assert_eq!(inv.dest_dir, "/data/dl");
    assert_eq!(inv.request.mode, Mode::AudioOnly);
    assert_eq!(inv.request.vquality, "720p");
    assert_eq!(inv.request.vcodec, "av1");
    assert_eq!(inv.request.aformat, "opus");
    assert!(inv.request.ttwatermark);
    assert!(inv.request.dublang);
    assert!(inv.request.fullaudio);
    assert!(inv.request.mute);
}
