//! Construction, builder and rendering behaviour of messages and their
//! parts.

use std::io::Read;

use mailgun_sdk::urlencode::urlencode_form;
use mailgun_sdk::Attachment;
use mailgun_sdk::AttachmentList;
use mailgun_sdk::Email;
use mailgun_sdk::EmailList;
use mailgun_sdk::Message;
use mailgun_sdk::MessageBuilder;

#[test]
fn message_new() {
    let from = Email::new(None, "test@test.com");
    let to = vec![
        Email::new(None, "test@test.com"),
        Email::new(None, "test@test.com"),
    ];
    let subject = "Subject line";

    let message = Message::new(subject, &from, &to);

    assert_eq!(from.to_string(), message.from().to_string());
    assert_eq!(2, message.to().len());
    assert_eq!(to.get(0).unwrap().to_string(), message.to().get(0).unwrap().to_string());
    assert_eq!(to.get(1).unwrap().to_string(), message.to().get(1).unwrap().to_string());
}

#[test]
fn message_builder_new() {
    let from = Email::new(None, "test@test.com");
    let to = vec![
        Email::new(None, "test@test.com"),
        Email::new(None, "test@test.com"),
    ];
    let subject = "Subject line";
    let text = "Raw Message body";

    let mut message_builder = MessageBuilder::new(subject, &from, &to);
    message_builder.text(Some(text));

    let message = message_builder.get_message();

    assert_eq!(from.to_string(), message.from().to_string());
    assert_eq!(subject, message.subject());
    assert_eq!(Some(text), message.text());
}

#[test]
fn message_as_form() {
    let from = Email::new(None, "test@test.com");
    let to = vec![
        Email::new(None, "test@test.com"),
        Email::new(None, "test@test.com"),
    ];
    let subject = "Subject line";

    let message_builder = MessageBuilder::new(subject, &from, &to);

    let message = message_builder.get_message();

    let mut form_params = message.as_form().unwrap();
    let mut form_params = form_params.prepare().unwrap();

    let mut body_buffer = String::new();
    form_params.read_to_string(&mut body_buffer).unwrap();

    {
        let boundary = form_params.boundary();
        let content_length = body_buffer.len();
        assert!(boundary.len() > 0);
        assert!(content_length > 0);
    }
}

#[test]
fn multipart_body_carries_text_fields() {
    let from = Email::new(None, "sender@test.com");
    let to = vec![Email::new(None, "receiver@test.com")];
    let mut builder = MessageBuilder::new("A subject", &from, &to);
    builder.text(Some("The text body"));

    let mut form = builder.get_message().as_form().unwrap();
    let mut prepared = form.prepare().unwrap();
    let mut body = String::new();
    prepared.read_to_string(&mut body).unwrap();

    assert!(body.contains("sender@test.com"));
    assert!(body.contains("receiver@test.com"));
    assert!(body.contains("A subject"));
    assert!(body.contains("The text body"));
    assert!(body.contains(prepared.boundary()));
}

#[test]
fn attachment_list_serialize() {
    let attachments = AttachmentList::new(vec![
        Attachment::new("name1", "path1"),
        Attachment::new("name2", "path2"),
        Attachment::new("name3", "path3"),
    ]);

    let pairs = vec![(String::from("attachments"), attachments.to_string())];
    let result = urlencode_form(&pairs);
    assert_eq!("attachments=%40name1%3Apath1%2C%40name2%3Apath2%2C%40name3%3Apath3", result);
}

#[test]
fn email_list_serialize() {
    let emails = EmailList::new(vec![
        Email::new(None, "test1@test.com"),
        Email::new(None, "test2@test.com"),
    ]);

    let pairs = vec![(String::from("emails"), emails.to_string())];
    let result = urlencode_form(&pairs);
    assert_eq!("emails=test1%40test.com%2Ctest2%40test.com", result);
}

#[test]
fn message_serialize() {
    let from = Email::new(None, "test@test.com");
    let to = vec![
        Email::new(None, "test1@test.com"),
        Email::new(None, "test2@test.com"),
    ];

    let message_builder = MessageBuilder::new("Subject Line", &from, &to);
    let message = message_builder.get_message();

    let result = message.to_urlencoded();
    assert_eq!(
        r#"from=test%40test.com&to=test1%40test.com%2Ctest2%40test.com&subject=Subject+Line"#,
        result
    );
}

#[test]
fn email_new() {
    let full = Email::new(Some("Name"), "test@test.com");
    let partial = Email::new(None, "test@test.com");

    assert_eq!("Name <test@test.com>", full.to_string());
    assert_eq!("test@test.com", partial.to_string());
}

#[test]
fn email_to_string() {
    let mut full = Email::new(None, "test@test.com");
    full.name(Some("Name"));
    let partial = Email::new(None, "test@test.com");

    assert_eq!("Name <test@test.com>", full.to_string());
    assert_eq!("test@test.com", partial.to_string());
}

#[test]
fn email_setters_replace() {
    let mut email = Email::new(Some("Before"), "first@test.com");
    email.address("second@test.com");
    assert_eq!("Before <second@test.com>", email.to_string());
    email.name(None);
    assert_eq!("second@test.com", email.to_string());
}

#[test]
fn attachment_to_string() {
    let mut attachment = Attachment::new("report", "/tmp/report.pdf");
    assert_eq!("@report:/tmp/report.pdf", attachment.to_string());
    assert_eq!("report", attachment.name());
    assert_eq!("/tmp/report.pdf", attachment.file_path());
    attachment.set_name("summary");
    attachment.set_file_path("/tmp/summary.pdf");
    assert_eq!("@summary:/tmp/summary.pdf", attachment.to_string());
}

#[test]
fn email_list_to_string_keeps_order() {
    let list = EmailList::new(vec![
        Email::new(Some("One"), "one@test.com"),
        Email::new(None, "two@test.com"),
        Email::new(Some("Three"), "three@test.com"),
    ]);
    assert_eq!("One <one@test.com>,two@test.com,Three <three@test.com>", list.to_string());
}

#[test]
fn builder_replaces_and_clears() {
    let from = Email::new(None, "from@test.com");
    let to = vec![Email::new(None, "to@test.com")];
    let mut builder = MessageBuilder::new("Subject", &from, &to);

    builder.text(Some("first body"));
    builder.text(Some("second body"));
    assert_eq!(Some("second body"), builder.get_message().text());

    builder.text(None);
    assert_eq!(None, builder.get_message().text());

    builder.html(Some("<p>body</p>"));
    assert_eq!(Some("<p>body</p>"), builder.get_message().html());

    builder.subject("Another subject");
    assert_eq!("Another subject", builder.get_message().subject());
}

#[test]
fn builder_appends_attachments() {
    let from = Email::new(None, "from@test.com");
    let to = vec![Email::new(None, "to@test.com")];
    let mut builder = MessageBuilder::new("Subject", &from, &to);

    builder.attachment(&Attachment::new("one", "/tmp/one"));
    builder.attachment(&Attachment::new("two", "/tmp/two"));

    let attachments = builder.get_message().attachment().unwrap();
    assert_eq!(2, attachments.len());
    assert_eq!("one", attachments[0].name());
    assert_eq!("/tmp/two", attachments[1].file_path());
}
