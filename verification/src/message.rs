//! The sendable message: an immutable snapshot of every field the provider
//! accepts, and a mutable builder that accumulates them.
//!
//! A message is created with just a subject, a `from` email and a `to` list.
//! Every other field is optional. A message needs a text or an HTML body
//! before it can be dispatched; that is checked once, right before encoding.

use vstd::prelude::*;

use multipart::client::lazy::Multipart;

use crate::address::clone_emails;
use crate::address::Email;
use crate::address::EmailList;
use crate::address::EmailView;
use crate::attachment::clone_attachments;
use crate::attachment::Attachment;
use crate::attachment::AttachmentList;
use crate::attachment::AttachmentView;
use crate::error::Error;
use crate::multiform::multipart_add_file;
use crate::multiform::multipart_add_text;
use crate::multiform::multipart_files;
use crate::multiform::multipart_new;
use crate::multiform::multipart_texts;
use crate::urlencode::form_urlencode;
use crate::urlencode::urlencode_form;
use crate::wire::push_attachment_parts;
use crate::wire::push_entry;
use crate::wire::push_flag_entry;
use crate::wire::push_json_map_entry;
use crate::wire::push_opt_bool_entry;
use crate::wire::push_opt_email_list;
use crate::wire::push_opt_entry;
use crate::wire::push_prefixed_entries;

verus! {

/// The optional view of an optional owned string.
pub open spec fn opt_string_view(o: Option<String>) -> Option<Seq<char>> {
    match o {
        Some(s) => Some(s@),
        None => None,
    }
}

/// The optional member views of an optional email list.
pub open spec fn opt_emails_deep(o: Option<Vec<Email>>) -> Option<Seq<EmailView>> {
    match o {
        Some(v) => Some(v.deep_view()),
        None => None,
    }
}

/// The optional member views of an optional borrowed email list.
pub open spec fn opt_emails_ref_deep(o: Option<&Vec<Email>>) -> Option<Seq<EmailView>> {
    match o {
        Some(v) => Some(v.deep_view()),
        None => None,
    }
}

/// The optional member views of an optional attachment list.
pub open spec fn opt_attachments_deep(o: Option<Vec<Attachment>>) -> Option<Seq<AttachmentView>> {
    match o {
        Some(v) => Some(v.deep_view()),
        None => None,
    }
}

/// The optional member views of an optional borrowed attachment list.
pub open spec fn opt_attachments_ref_deep(o: Option<&Vec<Attachment>>) -> Option<
    Seq<AttachmentView>,
> {
    match o {
        Some(v) => Some(v.deep_view()),
        None => None,
    }
}

/// The optional pair views of an optional list of string pairs.
pub open spec fn opt_pairs_deep(o: Option<Vec<(String, String)>>) -> Option<
    Seq<(Seq<char>, Seq<char>)>,
> {
    match o {
        Some(v) => Some(v.deep_view()),
        None => None,
    }
}

/// Mathematical value of a [`Message`]: every field as its view.
#[verifier::ext_equal]
pub struct MessageView {
    pub from: EmailView,
    pub to: Seq<EmailView>,
    pub cc: Option<Seq<EmailView>>,
    pub bcc: Option<Seq<EmailView>>,
    pub subject: Seq<char>,
    pub text: Option<Seq<char>>,
    pub html: Option<Seq<char>>,
    pub amp_html: Option<Seq<char>>,
    pub attachment: Option<Seq<AttachmentView>>,
    pub inline: Option<Seq<AttachmentView>>,
    pub template: Option<Seq<char>>,
    pub template_version: Option<Seq<char>>,
    pub template_text: Option<bool>,
    pub option_tag: Option<Seq<char>>,
    pub option_dkim: Option<Seq<char>>,
    pub option_deliverytime: Option<Seq<char>>,
    pub option_testmode: Option<Seq<char>>,
    pub option_tracking: Option<Seq<char>>,
    pub option_tracking_clicks: Option<Seq<char>>,
    pub option_tracking_opens: Option<bool>,
    pub option_require_tls: Option<bool>,
    pub option_skip_verification: Option<bool>,
    pub custom_headers: Option<Seq<(Seq<char>, Seq<char>)>>,
    pub custom_data: Option<Seq<(Seq<char>, Seq<char>)>>,
    pub recipient_variables: Option<Seq<(Seq<char>, Seq<char>)>>,
}

/// A message that can be sent to the provider.
///
/// Use [`MessageBuilder`] to build and modify a message before sending it.
pub struct Message {
    from: Email,
    to: EmailList,
    cc: Option<EmailList>,
    bcc: Option<EmailList>,
    subject: String,
    text: Option<String>,
    html: Option<String>,
    amp_html: Option<String>,
    attachment: Option<AttachmentList>,
    inline: Option<AttachmentList>,
    template: Option<String>,
    template_version: Option<String>,
    template_text: Option<bool>,
    option_tag: Option<String>,
    option_dkim: Option<String>,
    option_deliverytime: Option<String>,
    option_testmode: Option<String>,
    option_tracking: Option<String>,
    option_tracking_clicks: Option<String>,
    option_tracking_opens: Option<bool>,
    option_require_tls: Option<bool>,
    option_skip_verification: Option<bool>,
    custom_headers: Option<Vec<(String, String)>>,
    custom_data: Option<Vec<(String, String)>>,
    recipient_variables: Option<Vec<(String, String)>>,
}

impl View for Message {
    type V = MessageView;

    closed spec fn view(&self) -> MessageView {
        MessageView {
            from: self.from@,
            to: self.to@,
            cc: match self.cc {
                Some(l) => Some(l@),
                None => None,
            },
            bcc: match self.bcc {
                Some(l) => Some(l@),
                None => None,
            },
            subject: self.subject@,
            text: opt_string_view(self.text),
            html: opt_string_view(self.html),
            amp_html: opt_string_view(self.amp_html),
            attachment: match self.attachment {
                Some(l) => Some(l@),
                None => None,
            },
            inline: match self.inline {
                Some(l) => Some(l@),
                None => None,
            },
            template: opt_string_view(self.template),
            template_version: opt_string_view(self.template_version),
            template_text: self.template_text,
            option_tag: opt_string_view(self.option_tag),
            option_dkim: opt_string_view(self.option_dkim),
            option_deliverytime: opt_string_view(self.option_deliverytime),
            option_testmode: opt_string_view(self.option_testmode),
            option_tracking: opt_string_view(self.option_tracking),
            option_tracking_clicks: opt_string_view(self.option_tracking_clicks),
            option_tracking_opens: self.option_tracking_opens,
            option_require_tls: self.option_require_tls,
            option_skip_verification: self.option_skip_verification,
            custom_headers: opt_pairs_deep(self.custom_headers),
            custom_data: opt_pairs_deep(self.custom_data),
            recipient_variables: opt_pairs_deep(self.recipient_variables),
        }
    }
}

/// The view of a message just created from its three required fields:
/// everything else is unset.
pub open spec fn fresh_message_view(
    subject: Seq<char>,
    from: EmailView,
    to: Seq<EmailView>,
) -> MessageView {
    MessageView {
        from: from,
        to: to,
        cc: None,
        bcc: None,
        subject: subject,
        text: None,
        html: None,
        amp_html: None,
        attachment: None,
        inline: None,
        template: None,
        template_version: None,
        template_text: None,
        option_tag: None,
        option_dkim: None,
        option_deliverytime: None,
        option_testmode: None,
        option_tracking: None,
        option_tracking_clicks: None,
        option_tracking_opens: None,
        option_require_tls: None,
        option_skip_verification: None,
        custom_headers: None,
        custom_data: None,
        recipient_variables: None,
    }
}

/// Clone a list of string pairs, pair for pair.
pub fn clone_pairs(v: &Vec<(String, String)>) -> (r: Vec<(String, String)>)
    ensures
        r.deep_view() == v.deep_view(),
{
    let mut pairs: Vec<(String, String)> = Vec::new();
    let mut i: usize = 0;
    while i < v.len()
        invariant
            i <= v.len(),
            pairs.deep_view() == v.deep_view().take(i as int),
        decreases v.len() - i,
    {
        pairs.push((v[i].0.clone(), v[i].1.clone()));
        proof {
            assert(pairs.deep_view() =~= v.deep_view().take(i as int).push(v.deep_view()[i as int]));
            assert(v.deep_view().take(i + 1 as int) =~= v.deep_view().take(i as int).push(
                v.deep_view()[i as int],
            ));
        }
        i += 1;
    }
    proof {
        assert(v.deep_view().take(v.len() as int) =~= v.deep_view());
    }
    pairs
}

fn clone_opt_pairs(v: &Option<Vec<(String, String)>>) -> (r: Option<Vec<(String, String)>>)
    ensures
        opt_pairs_deep(r) == opt_pairs_deep(*v),
{
    match v {
        Some(p) => Some(clone_pairs(p)),
        None => None,
    }
}

impl Message {
    /// The `to` list is never empty.
    pub open spec fn wf(&self) -> bool {
        self@.to.len() > 0
    }

    /// Create a new message from a subject, a `from` email, and a non-empty
    /// list of `to` emails. Every optional field starts unset.
    pub fn new(subject: &str, from: &Email, to: &Vec<Email>) -> (r: Message)
        requires
            to@.len() > 0,
        ensures
            r@ == fresh_message_view(subject@, from@, to.deep_view()),
            r.wf(),
    {
        Message {
            from: from.clone(),
            to: EmailList::new(clone_emails(to)),
            cc: None,
            bcc: None,
            subject: subject.to_owned(),
            text: None,
            html: None,
            amp_html: None,
            attachment: None,
            inline: None,
            template: None,
            template_version: None,
            template_text: None,
            option_tag: None,
            option_dkim: None,
            option_deliverytime: None,
            option_testmode: None,
            option_tracking: None,
            option_tracking_clicks: None,
            option_tracking_opens: None,
            option_require_tls: None,
            option_skip_verification: None,
            custom_headers: None,
            custom_data: None,
            recipient_variables: None,
        }
    }

    /// Get the message's `from` field.
    pub fn from(&self) -> (r: Email)
        ensures
            r@ == self@.from,
    {
        self.from.clone()
    }

    /// Get the message's `to` field.
    pub fn to(&self) -> (r: Vec<Email>)
        ensures
            r.deep_view() == self@.to,
    {
        self.to.to_vec()
    }

    /// Get the message's `cc` field.
    pub fn cc(&self) -> (r: Option<Vec<Email>>)
        ensures
            opt_emails_deep(r) == self@.cc,
    {
        match &self.cc {
            Some(cc) => Some(cc.to_vec()),
            None => None,
        }
    }

    /// Get the message's `bcc` field.
    pub fn bcc(&self) -> (r: Option<Vec<Email>>)
        ensures
            opt_emails_deep(r) == self@.bcc,
    {
        match &self.bcc {
            Some(bcc) => Some(bcc.to_vec()),
            None => None,
        }
    }

    /// Get the message's `subject` field.
    pub fn subject(&self) -> (r: &str)
        ensures
            r@ == self@.subject,
    {
        self.subject.as_str()
    }

    /// Get the message's `text` field.
    pub fn text(&self) -> (r: Option<&str>)
        ensures
            crate::address::opt_str_view(r) == self@.text,
    {
        match &self.text {
            Some(t) => Some(t.as_str()),
            None => None,
        }
    }

    /// Get the message's `html` field.
    pub fn html(&self) -> (r: Option<&str>)
        ensures
            crate::address::opt_str_view(r) == self@.html,
    {
        match &self.html {
            Some(h) => Some(h.as_str()),
            None => None,
        }
    }

    /// Get the message's `amp-html` field.
    pub fn amp_html(&self) -> (r: Option<&str>)
        ensures
            crate::address::opt_str_view(r) == self@.amp_html,
    {
        match &self.amp_html {
            Some(a) => Some(a.as_str()),
            None => None,
        }
    }

    /// Get the message's `attachment` field.
    pub fn attachment(&self) -> (r: Option<Vec<Attachment>>)
        ensures
            opt_attachments_deep(r) == self@.attachment,
    {
        match &self.attachment {
            Some(l) => Some(l.attachments()),
            None => None,
        }
    }

    /// Get the message's `inline` field.
    pub fn inline(&self) -> (r: Option<Vec<Attachment>>)
        ensures
            opt_attachments_deep(r) == self@.inline,
    {
        match &self.inline {
            Some(l) => Some(l.attachments()),
            None => None,
        }
    }

    /// Get the message's `template` field.
    pub fn template(&self) -> (r: Option<&str>)
        ensures
            crate::address::opt_str_view(r) == self@.template,
    {
        match &self.template {
            Some(t) => Some(t.as_str()),
            None => None,
        }
    }

    /// Get the message's `t:version` field.
    pub fn template_version(&self) -> (r: Option<&str>)
        ensures
            crate::address::opt_str_view(r) == self@.template_version,
    {
        match &self.template_version {
            Some(t) => Some(t.as_str()),
            None => None,
        }
    }

    /// Get the message's `t:text` field.
    pub fn template_text(&self) -> (r: Option<bool>)
        ensures
            r == self@.template_text,
    {
        self.template_text
    }

    /// Get the message's `o:tag` field.
    pub fn option_tag(&self) -> (r: Option<&str>)
        ensures
            crate::address::opt_str_view(r) == self@.option_tag,
    {
        match &self.option_tag {
            Some(t) => Some(t.as_str()),
            None => None,
        }
    }

    /// Get the message's `o:dkim` field.
    pub fn option_dkim(&self) -> (r: Option<&str>)
        ensures
            crate::address::opt_str_view(r) == self@.option_dkim,
    {
        match &self.option_dkim {
            Some(t) => Some(t.as_str()),
            None => None,
        }
    }

    /// Get the message's `o:deliverytime` field.
    pub fn option_deliverytime(&self) -> (r: Option<&str>)
        ensures
            crate::address::opt_str_view(r) == self@.option_deliverytime,
    {
        match &self.option_deliverytime {
            Some(t) => Some(t.as_str()),
            None => None,
        }
    }

    /// Get the message's `o:testmode` field.
    pub fn option_testmode(&self) -> (r: Option<&str>)
        ensures
            crate::address::opt_str_view(r) == self@.option_testmode,
    {
        match &self.option_testmode {
            Some(t) => Some(t.as_str()),
            None => None,
        }
    }

    /// Get the message's `o:tracking` field.
    pub fn option_tracking(&self) -> (r: Option<&str>)
        ensures
            crate::address::opt_str_view(r) == self@.option_tracking,
    {
        match &self.option_tracking {
            Some(t) => Some(t.as_str()),
            None => None,
        }
    }

    /// Get the message's `o:tracking-clicks` field.
    pub fn option_tracking_clicks(&self) -> (r: Option<&str>)
        ensures
            crate::address::opt_str_view(r) == self@.option_tracking_clicks,
    {
        match &self.option_tracking_clicks {
            Some(t) => Some(t.as_str()),
            None => None,
        }
    }

    /// Get the message's `o:tracking-opens` field.
    pub fn option_tracking_opens(&self) -> (r: Option<bool>)
        ensures
            r == self@.option_tracking_opens,
    {
        self.option_tracking_opens
    }

    /// Get the message's `o:require-tls` field.
    pub fn option_require_tls(&self) -> (r: Option<bool>)
        ensures
            r == self@.option_require_tls,
    {
        self.option_require_tls
    }

    /// Get the message's `o:skip-verification` field.
    pub fn option_skip_verification(&self) -> (r: Option<bool>)
        ensures
            r == self@.option_skip_verification,
    {
        self.option_skip_verification
    }

    /// Get the message's custom headers list.
    pub fn custom_headers(&self) -> (r: Option<Vec<(String, String)>>)
        ensures
            opt_pairs_deep(r) == self@.custom_headers,
    {
        clone_opt_pairs(&self.custom_headers)
    }

    /// Get the message's custom data object.
    pub fn custom_data(&self) -> (r: Option<Vec<(String, String)>>)
        ensures
            opt_pairs_deep(r) == self@.custom_data,
    {
        clone_opt_pairs(&self.custom_data)
    }

    /// Get the message's recipient variables object.
    pub fn recipient_variables(&self) -> (r: Option<Vec<(String, String)>>)
        ensures
            opt_pairs_deep(r) == self@.recipient_variables,
    {
        clone_opt_pairs(&self.recipient_variables)
    }
}

/// Facilitates building a message to be sent to the provider.
///
/// Every setter replaces (or, for attachments, appends to) the corresponding
/// field of the message under construction; the message can be read back at
/// any time with [`MessageBuilder::get_message`] and mutated again.
pub struct MessageBuilder {
    message: Message,
}

impl View for MessageBuilder {
    type V = MessageView;

    closed spec fn view(&self) -> MessageView {
        self.message@
    }
}

impl MessageBuilder {
    /// Create a new message builder instance. This is the recommended way of
    /// creating a message to send.
    pub fn new(subject: &str, from: &Email, to: &Vec<Email>) -> (r: MessageBuilder)
        requires
            to@.len() > 0,
        ensures
            r@ == fresh_message_view(subject@, from@, to.deep_view()),
    {
        MessageBuilder { message: Message::new(subject, from, to) }
    }

    /// Return a reference to the underlying [`Message`].
    pub fn get_message(&self) -> (r: &Message)
        ensures
            r@ == self@,
    {
        &self.message
    }

    /// Email address for the `From` header.
    pub fn from(&mut self, from: &Email)
        ensures
            final(self)@ == (MessageView { from: from@, ..old(self)@ }),
    {
        self.message.from = from.clone();
    }

    /// Email addresses of the recipients; the list is never empty.
    pub fn to(&mut self, to: &Vec<Email>)
        requires
            to@.len() > 0,
        ensures
            final(self)@ == (MessageView { to: to.deep_view(), ..old(self)@ }),
    {
        self.message.to = EmailList::new(clone_emails(to));
    }

    /// Email addresses of the CC recipients.
    pub fn cc(&mut self, cc: Option<&Vec<Email>>)
        ensures
            final(self)@ == (MessageView { cc: opt_emails_ref_deep(cc), ..old(self)@ }),
    {
        self.message.cc = match cc {
            Some(cc) => Some(EmailList::new(clone_emails(cc))),
            None => None,
        };
    }

    /// Email addresses of the BCC recipients.
    pub fn bcc(&mut self, bcc: Option<&Vec<Email>>)
        ensures
            final(self)@ == (MessageView { bcc: opt_emails_ref_deep(bcc), ..old(self)@ }),
    {
        self.message.bcc = match bcc {
            Some(bcc) => Some(EmailList::new(clone_emails(bcc))),
            None => None,
        };
    }

    /// Message subject.
    pub fn subject(&mut self, subject: &str)
        ensures
            final(self)@ == (MessageView { subject: subject@, ..old(self)@ }),
    {
        self.message.subject = subject.to_owned();
    }

    /// Raw text body of the message.
    pub fn text(&mut self, text: Option<&str>)
        ensures
            final(self)@ == (MessageView {
                text: crate::address::opt_str_view(text),
                ..old(self)@
            }),
    {
        self.message.text = match text {
            Some(t) => Some(t.to_owned()),
            None => None,
        };
    }

    /// HTML body of the message.
    pub fn html(&mut self, html: Option<&str>)
        ensures
            final(self)@ == (MessageView {
                html: crate::address::opt_str_view(html),
                ..old(self)@
            }),
    {
        self.message.html = match html {
            Some(h) => Some(h.to_owned()),
            None => None,
        };
    }

    /// AMP part of the message.
    pub fn amp_html(&mut self, amp_html: Option<&str>)
        ensures
            final(self)@ == (MessageView {
                amp_html: crate::address::opt_str_view(amp_html),
                ..old(self)@
            }),
    {
        self.message.amp_html = match amp_html {
            Some(a) => Some(a.to_owned()),
            None => None,
        };
    }

    /// Append one file attachment.
    pub fn attachment(&mut self, attachment: &Attachment)
        ensures
            final(self)@ == (MessageView {
                attachment: Some(
                    match old(self)@.attachment {
                        Some(l) => l.push(attachment@),
                        None => seq![attachment@],
                    },
                ),
                ..old(self)@
            }),
    {
        let mut taken: Option<AttachmentList> = None;
        std::mem::swap(&mut self.message.attachment, &mut taken);
        let mut list = match taken {
            Some(l) => l,
            None => AttachmentList::new(Vec::new()),
        };
        list.push(attachment);
        proof {
            if old(self)@.attachment is None {
                assert(list@ =~= seq![attachment@]);
            }
        }
        self.message.attachment = Some(list);
    }

    /// Attachments with inline disposition, for example inline images.
    pub fn inline(&mut self, inline: Option<&Vec<Attachment>>)
        ensures
            final(self)@ == (MessageView {
                inline: opt_attachments_ref_deep(inline),
                ..old(self)@
            }),
    {
        self.message.inline = match inline {
            Some(l) => Some(AttachmentList::new(clone_attachments(l))),
            None => None,
        };
    }

    /// Name of a stored template.
    pub fn template(&mut self, template: Option<&str>)
        ensures
            final(self)@ == (MessageView {
                template: crate::address::opt_str_view(template),
                ..old(self)@
            }),
    {
        self.message.template = match template {
            Some(t) => Some(t.to_owned()),
            None => None,
        };
    }

    /// Set a specific version of the template.
    pub fn template_version(&mut self, template_version: Option<&str>)
        ensures
            final(self)@ == (MessageView {
                template_version: crate::address::opt_str_view(template_version),
                ..old(self)@
            }),
    {
        self.message.template_version = match template_version {
            Some(t) => Some(t.to_owned()),
            None => None,
        };
    }

    /// Set to `true` to have the rendered template in the text part of the
    /// message when sending by template.
    pub fn template_text(&mut self, template_text: Option<bool>)
        ensures
            final(self)@ == (MessageView { template_text: template_text, ..old(self)@ }),
    {
        self.message.template_text = template_text;
    }

    /// Tag string.
    pub fn option_tag(&mut self, option_tag: Option<&str>)
        ensures
            final(self)@ == (MessageView {
                option_tag: crate::address::opt_str_view(option_tag),
                ..old(self)@
            }),
    {
        self.message.option_tag = match option_tag {
            Some(t) => Some(t.to_owned()),
            None => None,
        };
    }

    /// Enable or force-disable DKIM signatures.
    pub fn option_dkim(&mut self, option_dkim: Option<&str>)
        ensures
            final(self)@ == (MessageView {
                option_dkim: crate::address::opt_str_view(option_dkim),
                ..old(self)@
            }),
    {
        self.message.option_dkim = match option_dkim {
            Some(t) => Some(t.to_owned()),
            None => None,
        };
    }

    /// Desired time of delivery.
    pub fn option_deliverytime(&mut self, option_deliverytime: Option<&str>)
        ensures
            final(self)@ == (MessageView {
                option_deliverytime: crate::address::opt_str_view(option_deliverytime),
                ..old(self)@
            }),
    {
        self.message.option_deliverytime = match option_deliverytime {
            Some(t) => Some(t.to_owned()),
            None => None,
        };
    }

    /// Send in test mode.
    pub fn option_testmode(&mut self, option_testmode: Option<&str>)
        ensures
            final(self)@ == (MessageView {
                option_testmode: crate::address::opt_str_view(option_testmode),
                ..old(self)@
            }),
    {
        self.message.option_testmode = match option_testmode {
            Some(t) => Some(t.to_owned()),
            None => None,
        };
    }

    /// Enable or force-disable tracking.
    pub fn option_tracking(&mut self, option_tracking: Option<&str>)
        ensures
            final(self)@ == (MessageView {
                option_tracking: crate::address::opt_str_view(option_tracking),
                ..old(self)@
            }),
    {
        self.message.option_tracking = match option_tracking {
            Some(t) => Some(t.to_owned()),
            None => None,
        };
    }

    /// Toggle click tracking.
    pub fn option_tracking_clicks(&mut self, option_tracking_clicks: Option<&str>)
        ensures
            final(self)@ == (MessageView {
                option_tracking_clicks: crate::address::opt_str_view(option_tracking_clicks),
                ..old(self)@
            }),
    {
        self.message.option_tracking_clicks = match option_tracking_clicks {
            Some(t) => Some(t.to_owned()),
            None => None,
        };
    }

    /// Enable or force-disable opens tracking.
    pub fn option_tracking_opens(&mut self, option_tracking_opens: Option<bool>)
        ensures
            final(self)@ == (MessageView {
                option_tracking_opens: option_tracking_opens,
                ..old(self)@
            }),
    {
        self.message.option_tracking_opens = option_tracking_opens;
    }

    /// Require delivery over TLS, or allow a plaintext fallback.
    pub fn option_require_tls(&mut self, option_require_tls: Option<bool>)
        ensures
            final(self)@ == (MessageView { option_require_tls: option_require_tls, ..old(self)@ }),
    {
        self.message.option_require_tls = option_require_tls;
    }

    /// Skip certificate and hostname verification for the delivery hop.
    pub fn option_skip_verification(&mut self, option_skip_verification: Option<bool>)
        ensures
            final(self)@ == (MessageView {
                option_skip_verification: option_skip_verification,
                ..old(self)@
            }),
    {
        self.message.option_skip_verification = option_skip_verification;
    }

    /// Custom headers to send as MIME headers with the message, as ordered
    /// key/value pairs.
    pub fn custom_headers(&mut self, custom_headers: Option<Vec<(String, String)>>)
        ensures
            final(self)@ == (MessageView {
                custom_headers: opt_pairs_deep(custom_headers),
                ..old(self)@
            }),
    {
        self.message.custom_headers = custom_headers;
    }

    /// Custom data attached to the message, as ordered key/value pairs.
    pub fn custom_data(&mut self, custom_data: Option<Vec<(String, String)>>)
        ensures
            final(self)@ == (MessageView { custom_data: opt_pairs_deep(custom_data), ..old(self)@ }),
    {
        self.message.custom_data = custom_data;
    }

    /// Recipient variables for batch sending, as ordered key/value pairs;
    /// each key should be a recipient and each value a JSON-encoded
    /// dictionary of variables.
    pub fn recipient_variables(&mut self, recipient_variables: Option<Vec<(String, String)>>)
        ensures
            final(self)@ == (MessageView {
                recipient_variables: opt_pairs_deep(recipient_variables),
                ..old(self)@
            }),
    {
        self.message.recipient_variables = recipient_variables;
    }
}

impl Message {
    /// The ordered wire parameters of the message, per the field table:
    /// every set field under its wire name, in declared field order, with
    /// unset fields omitted.
    /// Append the address block: sender, recipients and subject.
    fn push_address_params(&self, v: &mut Vec<(String, String)>)
        ensures
            final(v).deep_view() == old(v).deep_view() + crate::wire::address_params(self@),
    {
        push_entry(v, "from", self.from.to_string());
        push_entry(v, "to", self.to.to_string());
        push_opt_email_list(v, "cc", &self.cc);
        push_opt_email_list(v, "bcc", &self.bcc);
        push_entry(v, "subject", self.subject.clone());
        proof {
            assert(v.deep_view() =~= old(v).deep_view() + crate::wire::address_params(self@));
        }
    }

    /// Append the content block: bodies and template fields.
    fn push_content_params(&self, v: &mut Vec<(String, String)>)
        ensures
            final(v).deep_view() == old(v).deep_view() + crate::wire::content_params(self@),
    {
        push_opt_entry(v, "text", &self.text);
        push_opt_entry(v, "html", &self.html);
        push_opt_entry(v, "amp-html", &self.amp_html);
        push_opt_entry(v, "template", &self.template);
        push_opt_entry(v, "t:version", &self.template_version);
        push_flag_entry(v, "t:text", self.template_text);
        proof {
            assert(v.deep_view() =~= old(v).deep_view() + crate::wire::content_params(self@));
        }
    }

    /// Append the delivery-option block.
    #[verifier::rlimit(100)]
    fn push_option_params(&self, v: &mut Vec<(String, String)>)
        ensures
            final(v).deep_view() == old(v).deep_view() + crate::wire::option_params(self@),
    {
        push_opt_entry(v, "o:tag", &self.option_tag);
        push_opt_entry(v, "o:dkim", &self.option_dkim);
        push_opt_entry(v, "o:deliverytime", &self.option_deliverytime);
        push_opt_entry(v, "o:testmode", &self.option_testmode);
        push_opt_entry(v, "o:tracking", &self.option_tracking);
        proof {
            assert(v.deep_view() =~= old(v).deep_view() + (crate::wire::opt_entry(
                "o:tag"@,
                self@.option_tag,
            ) + crate::wire::opt_entry("o:dkim"@, self@.option_dkim) + crate::wire::opt_entry(
                "o:deliverytime"@,
                self@.option_deliverytime,
            ) + crate::wire::opt_entry("o:testmode"@, self@.option_testmode)
                + crate::wire::opt_entry("o:tracking"@, self@.option_tracking)));
        }
        push_opt_entry(v, "o:tracking-clicks", &self.option_tracking_clicks);
        push_opt_bool_entry(v, "o:tracking-opens", self.option_tracking_opens);
        push_opt_bool_entry(v, "o:require-tls", self.option_require_tls);
        push_opt_bool_entry(v, "o:skip-verification", self.option_skip_verification);
        proof {
            assert(v.deep_view() =~= old(v).deep_view() + crate::wire::option_params(self@));
        }
    }

    /// Append the mapping block: custom headers, custom data and the
    /// recipient variables as one JSON object.
    fn push_map_params(&self, v: &mut Vec<(String, String)>)
        ensures
            final(v).deep_view() == old(v).deep_view() + crate::wire::map_params(self@),
    {
        push_prefixed_entries(v, "h:", &self.custom_headers);
        push_prefixed_entries(v, "v:", &self.custom_data);
        push_json_map_entry(v, "recipient-variables", &self.recipient_variables);
        proof {
            assert(v.deep_view() =~= old(v).deep_view() + crate::wire::map_params(self@));
        }
    }

    /// The ordered wire parameters of the message, per the field table:
    /// every set field under its wire name, in declared field order, with
    /// unset fields omitted.
    pub fn to_wire_params(&self) -> (r: Vec<(String, String)>)
        ensures
            r.deep_view() == crate::wire::wire_params(self@),
    {
        let mut v: Vec<(String, String)> = Vec::new();
        self.push_address_params(&mut v);
        self.push_content_params(&mut v);
        self.push_option_params(&mut v);
        self.push_map_params(&mut v);
        proof {
            assert(v.deep_view() =~= crate::wire::wire_params(self@));
        }
        v
    }

    /// The ordered file parts of the message: one (field name, source path)
    /// pair per attachment, the plain attachments first, then the inline
    /// ones.
    pub fn file_parts(&self) -> (r: Vec<(String, String)>)
        ensures
            r.deep_view() == crate::wire::file_parts(self@),
    {
        let mut v: Vec<(String, String)> = Vec::new();
        push_attachment_parts(&mut v, &self.attachment);
        push_attachment_parts(&mut v, &self.inline);
        proof {
            assert(v.deep_view() =~= crate::wire::file_parts(self@));
        }
        v
    }

    /// Encode the message as a single URL-encoded form body.
    pub fn to_urlencoded(&self) -> (r: String)
        ensures
            r@ == form_urlencode(crate::wire::wire_params(self@)),
    {
        let params = self.to_wire_params();
        urlencode_form(&params)
    }

    /// Return the message as a multipart form: every wire parameter as a
    /// text field, then every attachment as a file field. The attached files
    /// are read only when the form is prepared for transport.
    pub fn as_form(&self) -> (r: Result<Multipart<'static, 'static>, Error>)
        ensures
            r is Ok,
            r matches Ok(f) ==> multipart_texts(f) == crate::wire::wire_params(self@)
                && multipart_files(f) == crate::wire::file_parts(self@),
    {
        let params = self.to_wire_params();
        let files = self.file_parts();
        let mut form = multipart_new();
        let mut i: usize = 0;
        while i < params.len()
            invariant
                i <= params.len(),
                params.deep_view() == crate::wire::wire_params(self@),
                params.deep_view().len() == params.len(),
                multipart_texts(form) == params.deep_view().take(i as int),
                multipart_files(form) == Seq::<(Seq<char>, Seq<char>)>::empty(),
            decreases params.len() - i,
        {
            let name = params[i].0.clone();
            let value = params[i].1.clone();
            multipart_add_text(&mut form, name, value);
            proof {
                assert(params.deep_view().take(i + 1 as int) =~= params.deep_view().take(
                    i as int,
                ).push(params.deep_view()[i as int]));
                assert(multipart_texts(form) =~= params.deep_view().take(i + 1 as int));
            }
            i += 1;
        }
        proof {
            assert(params.deep_view().take(params.len() as int) =~= params.deep_view());
        }
        let mut j: usize = 0;
        while j < files.len()
            invariant
                j <= files.len(),
                files.deep_view() == crate::wire::file_parts(self@),
                files.deep_view().len() == files.len(),
                multipart_texts(form) == crate::wire::wire_params(self@),
                multipart_files(form) == files.deep_view().take(j as int),
            decreases files.len() - j,
        {
            let name = files[j].0.clone();
            let path = files[j].1.clone();
            multipart_add_file(&mut form, name, path);
            proof {
                assert(files.deep_view().take(j + 1 as int) =~= files.deep_view().take(
                    j as int,
                ).push(files.deep_view()[j as int]));
                assert(multipart_files(form) =~= files.deep_view().take(j + 1 as int));
            }
            j += 1;
        }
        proof {
            assert(files.deep_view().take(files.len() as int) =~= files.deep_view());
        }
        Ok(form)
    }
}

} // verus!
