//! Client-side model of a transactional mail provider's sending API:
//! building a message, encoding it to the provider's wire formats, and
//! classifying the provider's response.

pub mod address;
pub mod attachment;
pub mod dispatch;
pub mod error;
pub mod json;
pub mod message;
pub mod multiform;
pub mod response;
pub mod urlencode;
pub mod wire;

pub use address::Email;
pub use address::EmailList;
pub use attachment::Attachment;
pub use attachment::AttachmentList;
pub use dispatch::prepare_request;
pub use dispatch::RequestBody;
pub use dispatch::SendRequest;
pub use error::Error;
pub use message::Message;
pub use message::MessageBuilder;
pub use response::classify_response;
pub use response::SendMessageResponse;
