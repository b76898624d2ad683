//! Preparation of one send: the target URL, the authentication pair, and
//! the encoded body, chosen between a URL-encoded form and a multipart form
//! by the presence of attachments. The network exchange itself is left to
//! the caller.

use vstd::prelude::*;
use vstd::string::StringExecFns;

use multipart::client::lazy::Multipart;

use crate::error::Error;
use crate::message::Message;
use crate::message::MessageView;
use crate::multiform::multipart_files;
use crate::multiform::multipart_texts;
use crate::urlencode::form_urlencode;
use crate::wire::file_parts;
use crate::wire::wire_params;

verus! {

/// The fixed base of the provider's API.
pub open spec fn api_base() -> Seq<char> {
    "https://api.mailgun.net/v3"@
}

/// The message-sending endpoint for an account domain.
pub open spec fn messages_url(domain: Seq<char>) -> Seq<char> {
    api_base() + "/"@ + domain + "/messages"@
}

/// A message may be dispatched only with a text or an HTML body.
pub open spec fn has_body(m: MessageView) -> bool {
    m.text is Some || m.html is Some
}

/// A message goes out as a multipart form exactly when it carries file
/// parts; with none it goes out URL-encoded.
pub open spec fn needs_multipart(m: MessageView) -> bool {
    file_parts(m).len() > 0
}

/// The body of a prepared request: a single URL-encoded form, or a
/// multipart form holding text fields and file fields.
pub enum RequestBody {
    UrlEncoded(String),
    MultipartForm(Multipart<'static, 'static>),
}

/// One fully prepared send: where to post, the Basic-Auth pair, and the
/// encoded body.
pub struct SendRequest {
    pub url: String,
    pub username: String,
    pub password: String,
    pub body: RequestBody,
}

/// Build the message-sending endpoint URL for an account domain.
pub fn build_messages_url(domain: &str) -> (r: String)
    ensures
        r@ == messages_url(domain@),
{
    let mut url = String::from_str("https://api.mailgun.net/v3");
    url.append("/");
    url.append(domain);
    url.append("/messages");
    proof {
        assert(url@ =~= messages_url(domain@));
    }
    url
}

/// Prepare one send of a message with the given credentials.
///
/// A message without a text or HTML body is refused outright, before any
/// encoding, and must not reach the wire. Otherwise the request carries the
/// endpoint URL for the domain, the fixed `api` user with the secret key as
/// password, and the encoded body: multipart when the message has file
/// parts, URL-encoded when it has none.
pub fn prepare_request(api_key: &str, domain: &str, message: &Message) -> (r: Result<
    SendRequest,
    Error,
>)
    ensures
        !has_body(message@) ==> r == Err::<SendRequest, Error>(Error::InvalidMessageError),
        has_body(message@) ==> (r matches Ok(req) && req.url@ == messages_url(domain@)
            && req.username@ == "api"@ && req.password@ == api_key@ && (if needs_multipart(
            message@,
        ) {
            req.body matches RequestBody::MultipartForm(f) && multipart_texts(f) == wire_params(
                message@,
            ) && multipart_files(f) == file_parts(message@)
        } else {
            req.body matches RequestBody::UrlEncoded(s) && s@ == form_urlencode(
                wire_params(message@),
            )
        })),
{
    if message.text().is_none() && message.html().is_none() {
        return Err(Error::InvalidMessageError);
    }
    let url = build_messages_url(domain);
    let files = message.file_parts();
    let body = if files.len() > 0 {
        match message.as_form() {
            Ok(form) => RequestBody::MultipartForm(form),
            Err(e) => {
                return Err(e);
            },
        }
    } else {
        RequestBody::UrlEncoded(message.to_urlencoded())
    };
    Ok(
        SendRequest {
            url,
            username: String::from_str("api"),
            password: api_key.to_owned(),
            body,
        },
    )
}

} // verus!
