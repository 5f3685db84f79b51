use cli_downloader::error::ErrorKind;
use cli_downloader::resolver::read_reply;
use cli_downloader::resolver::resolve_reply;
use cli_downloader::resolver::ParsedReply;

#[test]
fn stream_reply_yields_the_url_unquoted() {
    let r = resolve_reply("{\"status\":\"stream\",\"url\":\"https://x/y\"}");
    assert_eq!(r.ok(), Some("https://x/y".to_string()));
}

#[test]
fn error_reply_yields_a_resolution_error_with_the_reason() {
    let r = resolve_reply("{\"status\":\"error\",\"text\":\"no video found\"}");
    let e = r.err().unwrap();
    assert_eq!(e.kind(), ErrorKind::Resolution);
    assert_eq!(e.message(), "no video found");
}

#[test]
fn unparsable_reply_is_a_protocol_error() {
    let e = resolve_reply("not json at all").err().unwrap();
    assert_eq!(e.kind(), ErrorKind::Protocol);
    let e = resolve_reply("").err().unwrap();
    assert_eq!(e.kind(), ErrorKind::Protocol);
}

#[test]
fn reply_without_status_is_a_protocol_error() {
    let e = resolve_reply("{\"url\":\"https://x/y\"}").err().unwrap();
    assert_eq!(e.kind(), ErrorKind::Protocol);
    assert_eq!(
        e.message(),
        "resolver reply was not a JSON object with a status field"
    );
}

#[test]
fn stream_reply_without_url_is_a_protocol_error() {
    let e = resolve_reply("{\"status\":\"stream\"}").err().unwrap();
    assert_eq!(e.kind(), ErrorKind::Protocol);
    assert_eq!(e.message(), "resolver reply had status stream but no url field");
}

#[test]
fn error_reply_without_text_gets_the_fixed_reason() {
    let e = resolve_reply("{\"status\":\"rate-limit\"}").err().unwrap();
    assert_eq!(e.kind(), ErrorKind::Resolution);
    assert_eq!(e.message(), "resolver reported a failure without giving a reason");
}

#[test]
fn non_string_status_is_a_protocol_error() {
    let e = resolve_reply("{\"status\":5}").err().unwrap();
    assert_eq!(e.kind(), ErrorKind::Protocol);
}

#[test]
fn read_reply_picks_the_stream_url() {
    let p = ParsedReply {
        valid: true,
        status: Some("stream".to_string()),
        url: Some("https://cdn/clip".to_string()),
        text: None,
    };
    assert_eq!(read_reply(p).ok(), Some("https://cdn/clip".to_string()));
}

#[test]
fn read_reply_rejects_an_invalid_parse() {
    let p = ParsedReply { valid: false, status: None, url: None, text: None };
    let e = read_reply(p).err().unwrap();
    assert_eq!(e.kind(), ErrorKind::Protocol);
}
