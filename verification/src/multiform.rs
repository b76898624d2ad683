//! The multipart form that carries a message with attachments: the outside
//! form type, the names of its text and file contents, and the trusted calls
//! that fill it. Reading the attached files and framing the body happen only
//! when the caller prepares the form for transport.

use vstd::prelude::*;

use multipart::client::lazy::Multipart;

verus! {

#[verifier::external_type_specification]
#[verifier::external_body]
pub struct ExMultipart<'n, 'd>(Multipart<'n, 'd>);

/// The (name, value) text fields a multipart form holds, in insertion order.
pub uninterp spec fn multipart_texts(m: Multipart<'static, 'static>) -> Seq<(Seq<char>, Seq<char>)>;

/// The (name, source path) file fields a multipart form holds, in insertion
/// order.
pub uninterp spec fn multipart_files(m: Multipart<'static, 'static>) -> Seq<(Seq<char>, Seq<char>)>;

/// Relies on multipart::client::lazy::Multipart::new: a fresh form holds no
/// fields.
#[verifier::external_body]
pub(crate) fn multipart_new() -> (r: Multipart<'static, 'static>)
    ensures
        multipart_texts(r) == Seq::<(Seq<char>, Seq<char>)>::empty(),
        multipart_files(r) == Seq::<(Seq<char>, Seq<char>)>::empty(),
{
    Multipart::new()
}

/// Relies on multipart::client::lazy::Multipart::add_text: it appends one
/// text field to the form's field list and touches nothing else.
#[verifier::external_body]
pub(crate) fn multipart_add_text(m: &mut Multipart<'static, 'static>, name: String, value: String)
    ensures
        multipart_texts(*final(m)) == multipart_texts(*old(m)).push((name@, value@)),
        multipart_files(*final(m)) == multipart_files(*old(m)),
{
    m.add_text(name, value);
}

/// Relies on multipart::client::lazy::Multipart::add_file: it appends one
/// file field (a name and a source path, read only on preparation) to the
/// form's field list and touches nothing else.
#[verifier::external_body]
pub(crate) fn multipart_add_file(m: &mut Multipart<'static, 'static>, name: String, path: String)
    ensures
        multipart_files(*final(m)) == multipart_files(*old(m)).push((name@, path@)),
        multipart_texts(*final(m)) == multipart_texts(*old(m)),
{
    m.add_file(name, std::path::PathBuf::from(path));
}

} // verus!
