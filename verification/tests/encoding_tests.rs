//! The wire-parameter table, the two body encodings, and the selection
//! between them.

use mailgun_sdk::dispatch::prepare_request;
use mailgun_sdk::dispatch::RequestBody;
use mailgun_sdk::Attachment;
use mailgun_sdk::Email;
use mailgun_sdk::Error;
use mailgun_sdk::MessageBuilder;

fn find<'a>(pairs: &'a [(String, String)], key: &str) -> Option<&'a str> {
    pairs.iter().find(|p| p.0 == key).map(|p| p.1.as_str())
}

#[test]
fn urlencoded_minimal_message() {
    let from = Email::new(None, "a@x.com");
    let to = vec![Email::new(None, "b@x.com")];
    let builder = MessageBuilder::new("S", &from, &to);

    let result = builder.get_message().to_urlencoded();
    assert_eq!("from=a%40x.com&to=b%40x.com&subject=S", result);
}

#[test]
fn urlencoded_space_becomes_plus() {
    let from = Email::new(None, "a@x.com");
    let to = vec![Email::new(None, "b@x.com")];
    let builder = MessageBuilder::new("Two words & more", &from, &to);

    let result = builder.get_message().to_urlencoded();
    assert_eq!("from=a%40x.com&to=b%40x.com&subject=Two+words+%26+more", result);
}

#[test]
fn wire_params_follow_field_order() {
    let from = Email::new(None, "a@x.com");
    let to = vec![Email::new(None, "b@x.com")];
    let mut builder = MessageBuilder::new("S", &from, &to);
    builder.text(Some("body"));
    builder.template(Some("tpl"));
    builder.option_tag(Some("tag"));
    builder.option_require_tls(Some(true));

    let params = builder.get_message().to_wire_params();
    let keys: Vec<&str> = params.iter().map(|p| p.0.as_str()).collect();
    assert_eq!(vec!["from", "to", "subject", "text", "template", "o:tag", "o:require-tls"], keys);
    assert_eq!(Some("yes"), find(&params, "o:require-tls"));
}

#[test]
fn template_text_false_is_omitted() {
    let from = Email::new(None, "a@x.com");
    let to = vec![Email::new(None, "b@x.com")];
    let mut builder = MessageBuilder::new("S", &from, &to);

    builder.template_text(Some(false));
    let params = builder.get_message().to_wire_params();
    assert_eq!(None, find(&params, "t:text"));

    builder.template_text(None);
    let params = builder.get_message().to_wire_params();
    assert_eq!(None, find(&params, "t:text"));

    builder.template_text(Some(true));
    let params = builder.get_message().to_wire_params();
    assert_eq!(Some("yes"), find(&params, "t:text"));
}

#[test]
fn boolean_options_are_explicit() {
    let from = Email::new(None, "a@x.com");
    let to = vec![Email::new(None, "b@x.com")];
    let mut builder = MessageBuilder::new("S", &from, &to);
    builder.option_tracking_opens(Some(true));
    builder.option_require_tls(Some(false));
    builder.option_skip_verification(Some(false));

    let params = builder.get_message().to_wire_params();
    assert_eq!(Some("yes"), find(&params, "o:tracking-opens"));
    assert_eq!(Some("no"), find(&params, "o:require-tls"));
    assert_eq!(Some("no"), find(&params, "o:skip-verification"));
}

#[test]
fn custom_maps_are_prefixed() {
    let from = Email::new(None, "a@x.com");
    let to = vec![Email::new(None, "b@x.com")];
    let mut builder = MessageBuilder::new("S", &from, &to);
    builder.custom_headers(Some(vec![(String::from("X-One"), String::from("1"))]));
    builder.custom_data(Some(vec![(String::from("key"), String::from("value"))]));

    let params = builder.get_message().to_wire_params();
    assert_eq!(Some("1"), find(&params, "h:X-One"));
    assert_eq!(Some("value"), find(&params, "v:key"));
}

#[test]
fn recipient_variables_match_reference_json() {
    let from = Email::new(None, "a@x.com");
    let to = vec![Email::new(None, "b@x.com")];
    let mut builder = MessageBuilder::new("S", &from, &to);
    let vars = vec![
        (String::from("bob@x.com"), String::from("{\"id\":1}")),
        (String::from("eve@x.com"), String::from("line\nbreak \"quoted\"")),
    ];
    builder.recipient_variables(Some(vars.clone()));

    let params = builder.get_message().to_wire_params();
    let encoded = find(&params, "recipient-variables").unwrap();

    let reference: std::collections::BTreeMap<String, String> = vars.into_iter().collect();
    let expected = serde_json::to_string(&reference).unwrap();
    assert_eq!(expected, encoded);
}

#[test]
fn plain_message_goes_urlencoded() {
    let from = Email::new(None, "a@x.com");
    let to = vec![Email::new(None, "b@x.com")];
    let mut builder = MessageBuilder::new("S", &from, &to);
    builder.text(Some("body"));

    let request = prepare_request("key", "example.com", builder.get_message()).unwrap();
    assert_eq!("https://api.mailgun.net/v3/example.com/messages", request.url);
    assert_eq!("api", request.username);
    assert_eq!("key", request.password);
    match request.body {
        RequestBody::UrlEncoded(body) => {
            assert_eq!("from=a%40x.com&to=b%40x.com&subject=S&text=body", body);
        },
        RequestBody::MultipartForm(_) => panic!("expected a URL-encoded body"),
    }
}

#[test]
fn attachment_switches_to_multipart() {
    let from = Email::new(None, "a@x.com");
    let to = vec![Email::new(None, "b@x.com")];
    let mut builder = MessageBuilder::new("S", &from, &to);
    builder.text(Some("body"));
    builder.attachment(&Attachment::new("report", "/tmp/report.pdf"));

    let message = builder.get_message();
    let files = message.file_parts();
    assert_eq!(1, files.len());
    assert_eq!("report", files[0].0);
    assert_eq!("/tmp/report.pdf", files[0].1);

    let request = prepare_request("key", "example.com", message).unwrap();
    match request.body {
        RequestBody::MultipartForm(_) => {},
        RequestBody::UrlEncoded(_) => panic!("expected a multipart body"),
    }
}

#[test]
fn missing_body_is_invalid() {
    let from = Email::new(None, "a@x.com");
    let to = vec![Email::new(None, "b@x.com")];
    let builder = MessageBuilder::new("S", &from, &to);

    let result = prepare_request("key", "example.com", builder.get_message());
    assert!(matches!(result, Err(Error::InvalidMessageError)));

    let mut builder = builder;
    builder.text(Some("body"));
    builder.text(None);
    let result = prepare_request("key", "example.com", builder.get_message());
    assert!(matches!(result, Err(Error::InvalidMessageError)));
}
