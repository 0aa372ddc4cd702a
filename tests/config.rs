use static_text::config::{file_response, str_response, Config};
use static_text::reply::Reply;

fn text(status: u16, body: &str) -> Reply {
    Reply::Text { status, body: body.to_string() }
}

#[test]
fn unset_string_is_not_configured() {
    assert_eq!(str_response(&None), text(404, "Not Configured"));
}

#[test]
fn set_string_is_returned_exactly() {
    assert_eq!(str_response(&Some("s3cr3t value".to_string())), text(200, "s3cr3t value"));
    assert_eq!(str_response(&Some(String::new())), text(200, ""));
}

#[test]
fn file_response_values() {
    assert_eq!(file_response(&None), Reply::NotFoundPage);
    assert_eq!(
        file_response(&Some("/etc/app/config.txt".to_string())),
        Reply::File { path: "/etc/app/config.txt".to_string() }
    );
}

#[test]
fn config_endpoints() {
    let mut c = Config::new("0.0.0.0:8080".to_string());
    assert_eq!(c.bind_address, "0.0.0.0:8080");
    assert_eq!(c.secret_key(), text(404, "Not Configured"));
    assert_eq!(c.config_key(), text(404, "Not Configured"));
    assert_eq!(c.config_file(), Reply::NotFoundPage);
    assert_eq!(c.config_map_file(), Reply::NotFoundPage);
    assert_eq!(c.secret_map_file(), Reply::NotFoundPage);
    c.secret_key = Some("k".to_string());
    c.config_key = Some("v".to_string());
    c.config_file = Some("a".to_string());
    c.config_map_file = Some("b".to_string());
    c.secret_map_file = Some("c".to_string());
    assert_eq!(c.secret_key(), text(200, "k"));
    assert_eq!(c.config_key(), text(200, "v"));
    assert_eq!(c.config_file(), Reply::File { path: "a".to_string() });
    assert_eq!(c.config_map_file(), Reply::File { path: "b".to_string() });
    assert_eq!(c.secret_map_file(), Reply::File { path: "c".to_string() });
}
