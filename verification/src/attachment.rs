//! File attachments: a logical field name paired with a local file path,
//! and an append-only list thereof, each with its string rendering.

use vstd::prelude::*;
use vstd::string::StringExecFns;

verus! {

/// Mathematical value of an [`Attachment`]: its field name and source path
/// as character sequences.
pub struct AttachmentView {
    pub name: Seq<char>,
    pub file_path: Seq<char>,
}

/// How an [`Attachment`] renders: `"@name:path"`.
pub open spec fn attachment_render(a: AttachmentView) -> Seq<char> {
    "@"@ + a.name + ":"@ + a.file_path
}

/// A file attachment that can be sent with a message. The file is not read
/// here; only its path travels with the message until the transport reads it.
pub struct Attachment {
    name: String,
    file_path: String,
}

impl View for Attachment {
    type V = AttachmentView;

    closed spec fn view(&self) -> AttachmentView {
        AttachmentView { name: self.name@, file_path: self.file_path@ }
    }
}

impl DeepView for Attachment {
    type V = AttachmentView;

    open spec fn deep_view(&self) -> AttachmentView {
        self.view()
    }
}

impl Attachment {
    /// Create a new attachment.
    pub fn new(name: &str, file_path: &str) -> (r: Attachment)
        ensures
            r@.name == name@,
            r@.file_path == file_path@,
    {
        Attachment { name: name.to_owned(), file_path: file_path.to_owned() }
    }

    /// Get the attachment's name.
    pub fn name(&self) -> (r: &str)
        ensures
            r@ == self@.name,
    {
        self.name.as_str()
    }

    /// Get the attachment's file path.
    pub fn file_path(&self) -> (r: &str)
        ensures
            r@ == self@.file_path,
    {
        self.file_path.as_str()
    }

    /// Set the name of the attachment.
    pub fn set_name(&mut self, name: &str)
        ensures
            final(self)@.name == name@,
            final(self)@.file_path == old(self)@.file_path,
    {
        self.name = name.to_owned();
    }

    /// Set the file path of the attachment.
    pub fn set_file_path(&mut self, file_path: &str)
        ensures
            final(self)@.name == old(self)@.name,
            final(self)@.file_path == file_path@,
    {
        self.file_path = file_path.to_owned();
    }

    /// Return the string rendering of the attachment: `@{name}:{file_path}`.
    pub fn to_string(&self) -> (r: String)
        ensures
            r@ == attachment_render(self@),
    {
        let mut s = String::from_str("@");
        s.append(self.name.as_str());
        s.append(":");
        s.append(self.file_path.as_str());
        proof {
            assert(s@ =~= attachment_render(self@));
        }
        s
    }
}

impl Clone for Attachment {
    fn clone(&self) -> (r: Self)
        ensures
            r@ == self@,
    {
        Attachment { name: self.name.clone(), file_path: self.file_path.clone() }
    }
}

/// The rendering of a list of attachments: the members' renderings joined by
/// `,`, in order.
pub open spec fn render_attachments(l: Seq<AttachmentView>) -> Seq<char>
    decreases l.len(),
{
    if l.len() == 0 {
        Seq::empty()
    } else if l.len() == 1 {
        attachment_render(l[0])
    } else {
        attachment_render(l[0]) + ","@ + render_attachments(l.drop_first())
    }
}

/// Appending one attachment to a rendered list appends `,` and its rendering
/// (nothing but the one rendering when the list was empty).
pub proof fn lemma_render_attachments_snoc(l: Seq<AttachmentView>, a: AttachmentView)
    ensures
        render_attachments(l.push(a)) == if l.len() == 0 {
            attachment_render(a)
        } else {
            render_attachments(l) + ","@ + attachment_render(a)
        },
    decreases l.len(),
{
    if l.len() == 0 {
        assert(l.push(a) =~= seq![a]);
    } else {
        assert(l.push(a).drop_first() =~= l.drop_first().push(a));
        lemma_render_attachments_snoc(l.drop_first(), a);
        if l.len() == 1 {
            assert(l.drop_first().len() == 0);
        }
    }
}

/// Clone a list of attachments, member for member.
pub fn clone_attachments(v: &Vec<Attachment>) -> (r: Vec<Attachment>)
    ensures
        r.deep_view() == v.deep_view(),
{
    let mut attachments: Vec<Attachment> = Vec::new();
    let mut i: usize = 0;
    while i < v.len()
        invariant
            i <= v.len(),
            attachments.deep_view() == v.deep_view().take(i as int),
        decreases v.len() - i,
    {
        attachments.push(v[i].clone());
        proof {
            assert(attachments.deep_view() =~= v.deep_view().take(i as int).push(
                v.deep_view()[i as int],
            ));
            assert(v.deep_view().take(i + 1 as int) =~= v.deep_view().take(i as int).push(
                v.deep_view()[i as int],
            ));
        }
        i += 1;
    }
    proof {
        assert(v.deep_view().take(v.len() as int) =~= v.deep_view());
    }
    attachments
}

/// An ordered, append-only list of attachments.
pub struct AttachmentList {
    attachments: Vec<Attachment>,
}

impl View for AttachmentList {
    type V = Seq<AttachmentView>;

    closed spec fn view(&self) -> Seq<AttachmentView> {
        self.attachments.deep_view()
    }
}

impl AttachmentList {
    /// Wrap a list of attachments.
    pub fn new(attachments: Vec<Attachment>) -> (r: AttachmentList)
        ensures
            r@ == attachments.deep_view(),
    {
        AttachmentList { attachments }
    }

    /// The number of attachments in the list.
    pub fn len(&self) -> (r: usize)
        ensures
            r == self@.len(),
    {
        self.attachments.len()
    }

    /// Return the list of attachments, in order.
    pub fn attachments(&self) -> (r: Vec<Attachment>)
        ensures
            r.deep_view() == self@,
    {
        let mut attachments: Vec<Attachment> = Vec::new();
        let mut i: usize = 0;
        while i < self.attachments.len()
            invariant
                i <= self.attachments.len(),
                attachments.deep_view() == self@.take(i as int),
            decreases self.attachments.len() - i,
        {
            attachments.push(self.attachments[i].clone());
            proof {
                assert(attachments.deep_view() =~= self@.take(i as int).push(self@[i as int]));
                assert(self@.take(i + 1 as int) =~= self@.take(i as int).push(self@[i as int]));
            }
            i += 1;
        }
        proof {
            assert(self@.take(self.attachments.len() as int) =~= self@);
        }
        attachments
    }

    /// Appends an attachment to the end of the list.
    pub fn push(&mut self, attachment: &Attachment)
        ensures
            final(self)@ == old(self)@.push(attachment@),
    {
        self.attachments.push(attachment.clone());
        proof {
            assert(self@ =~= old(self)@.push(attachment@));
        }
    }

    /// Render the list: the members' renderings joined by `,`, in order.
    pub fn to_string(&self) -> (r: String)
        ensures
            r@ == render_attachments(self@),
    {
        let mut s = String::new();
        let mut i: usize = 0;
        while i < self.attachments.len()
            invariant
                i <= self.attachments.len(),
                s@ == render_attachments(self@.take(i as int)),
            decreases self.attachments.len() - i,
        {
            if i > 0 {
                s.append(",");
            }
            let part = self.attachments[i].to_string();
            s.append(part.as_str());
            proof {
                lemma_render_attachments_snoc(self@.take(i as int), self@[i as int]);
                assert(self@.take(i + 1 as int) =~= self@.take(i as int).push(self@[i as int]));
            }
            i += 1;
        }
        proof {
            assert(self@.take(self.attachments.len() as int) =~= self@);
        }
        s
    }
}

impl Clone for AttachmentList {
    fn clone(&self) -> (r: Self)
        ensures
            r@ == self@,
    {
        AttachmentList { attachments: self.attachments() }
    }
}

} // verus!
