//! The ways composing or sending a message can fail. Every failure is
//! surfaced to the caller as a typed result; none is retried internally.

use vstd::prelude::*;

verus! {

/// Wrapper around the various errors the library might experience.
#[derive(Debug)]
pub enum Error {
    /// The provider rejected the credentials: its response body was the
    /// literal string `Forbidden`, outside its usual JSON envelope.
    ApiForbiddenError,
    /// A structured sub-field could not be encoded. The library's own
    /// encoders are total, so only callers layering their own field encoding
    /// over the wire table produce this.
    FieldSerializationError(String),
    /// The multipart body could not be assembled, usually because a source
    /// file could not be read; carries the underlying cause.
    BodyConstructionError(String),
    /// The network send failed, or the response body could not be read;
    /// carries the underlying cause.
    TransportError(String),
    /// The provider accepted the request but reported a failure; carries the
    /// provider's message.
    SendRejected(String),
    /// The response body was neither the `Forbidden` sentinel nor a
    /// parseable success or failure shape; carries the parse cause.
    DecodeError(String),
    /// The message has neither a text nor an HTML body, so it must not be
    /// sent.
    InvalidMessageError,
}

} // verus!
