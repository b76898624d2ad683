//! Mail participants: a single address with an optional display name, and an
//! ordered list of addresses, each with its string rendering.

use vstd::prelude::*;
use vstd::string::StringExecFns;

verus! {

/// Mathematical value of an [`Email`]: the optional display name and the
/// address, both as character sequences.
pub struct EmailView {
    pub name: Option<Seq<char>>,
    pub address: Seq<char>,
}

/// How an [`Email`] renders: `"name <address>"` when a display name is
/// present, the bare address otherwise.
pub open spec fn email_render(e: EmailView) -> Seq<char> {
    match e.name {
        Some(n) => n + " <"@ + e.address + ">"@,
        None => e.address,
    }
}

/// The optional view of an optional string.
pub open spec fn opt_str_view(s: Option<&str>) -> Option<Seq<char>> {
    match s {
        Some(s) => Some(s@),
        None => None,
    }
}

/// An email participant: an address plus an optional display name.
pub struct Email {
    name: Option<String>,
    address: String,
}

impl View for Email {
    type V = EmailView;

    closed spec fn view(&self) -> EmailView {
        EmailView {
            name: match self.name {
                Some(n) => Some(n@),
                None => None,
            },
            address: self.address@,
        }
    }
}

impl DeepView for Email {
    type V = EmailView;

    open spec fn deep_view(&self) -> EmailView {
        self.view()
    }
}

impl Email {
    /// The address is never empty; nothing more of its shape is checked.
    pub open spec fn wf(&self) -> bool {
        self@.address.len() > 0
    }

    /// Create a new email from an address and optional name field.
    pub fn new(name: Option<&str>, address: &str) -> (r: Email)
        requires
            address@.len() > 0,
        ensures
            r@.name == opt_str_view(name),
            r@.address == address@,
            r.wf(),
    {
        let name = match name {
            Some(n) => Some(n.to_owned()),
            None => None,
        };
        Email { name, address: address.to_owned() }
    }

    /// Set the display name portion of the email.
    pub fn name(&mut self, name: Option<&str>)
        ensures
            final(self)@.name == opt_str_view(name),
            final(self)@.address == old(self)@.address,
    {
        self.name = match name {
            Some(n) => Some(n.to_owned()),
            None => None,
        };
    }

    /// Set the full address portion of the email.
    pub fn address(&mut self, address: &str)
        requires
            address@.len() > 0,
        ensures
            final(self)@.name == old(self)@.name,
            final(self)@.address == address@,
            final(self).wf(),
    {
        self.address = address.to_owned();
    }

    /// Return the string rendering of the email: `Name <address>` when a
    /// name is set, the bare address otherwise.
    pub fn to_string(&self) -> (r: String)
        ensures
            r@ == email_render(self@),
    {
        match &self.name {
            Some(n) => {
                let mut s = n.clone();
                s.append(" <");
                s.append(self.address.as_str());
                s.append(">");
                proof {
                    assert(s@ =~= email_render(self@));
                }
                s
            },
            None => self.address.clone(),
        }
    }
}

impl Clone for Email {
    fn clone(&self) -> (r: Self)
        ensures
            r@ == self@,
    {
        Email {
            name: match &self.name {
                Some(n) => Some(n.clone()),
                None => None,
            },
            address: self.address.clone(),
        }
    }
}

/// The rendering of a list of emails: the members' renderings joined by `,`,
/// in order.
pub open spec fn render_emails(l: Seq<EmailView>) -> Seq<char>
    decreases l.len(),
{
    if l.len() == 0 {
        Seq::empty()
    } else if l.len() == 1 {
        email_render(l[0])
    } else {
        email_render(l[0]) + ","@ + render_emails(l.drop_first())
    }
}

/// Appending one email to a rendered list appends `,` and its rendering
/// (nothing but the one rendering when the list was empty).
pub proof fn lemma_render_emails_snoc(l: Seq<EmailView>, e: EmailView)
    ensures
        render_emails(l.push(e)) == if l.len() == 0 {
            email_render(e)
        } else {
            render_emails(l) + ","@ + email_render(e)
        },
    decreases l.len(),
{
    if l.len() == 0 {
        assert(l.push(e) =~= seq![e]);
    } else {
        assert(l.push(e).drop_first() =~= l.drop_first().push(e));
        lemma_render_emails_snoc(l.drop_first(), e);
        if l.len() == 1 {
            assert(l.drop_first().len() == 0);
        }
    }
}

/// Clone a list of emails, member for member.
pub fn clone_emails(v: &Vec<Email>) -> (r: Vec<Email>)
    ensures
        r.deep_view() == v.deep_view(),
{
    let mut emails: Vec<Email> = Vec::new();
    let mut i: usize = 0;
    while i < v.len()
        invariant
            i <= v.len(),
            emails.deep_view() == v.deep_view().take(i as int),
        decreases v.len() - i,
    {
        emails.push(v[i].clone());
        proof {
            assert(emails.deep_view() =~= v.deep_view().take(i as int).push(v.deep_view()[i as int]));
            assert(v.deep_view().take(i + 1 as int) =~= v.deep_view().take(i as int).push(
                v.deep_view()[i as int],
            ));
        }
        i += 1;
    }
    proof {
        assert(v.deep_view().take(v.len() as int) =~= v.deep_view());
    }
    emails
}

/// An ordered list of email participants.
pub struct EmailList {
    emails: Vec<Email>,
}

impl View for EmailList {
    type V = Seq<EmailView>;

    closed spec fn view(&self) -> Seq<EmailView> {
        self.emails.deep_view()
    }
}

impl EmailList {
    /// Wrap a list of emails.
    pub fn new(emails: Vec<Email>) -> (r: EmailList)
        ensures
            r@ == emails.deep_view(),
    {
        EmailList { emails }
    }

    /// Return the members, in order.
    pub fn emails(&self) -> (r: &Vec<Email>)
        ensures
            r.deep_view() == self@,
    {
        &self.emails
    }

    /// Return a copy of the members, in order.
    pub fn to_vec(&self) -> (r: Vec<Email>)
        ensures
            r.deep_view() == self@,
    {
        let copy = self.clone();
        copy.emails
    }

    /// Render the list: the members' renderings joined by `,`, in order.
    pub fn to_string(&self) -> (r: String)
        ensures
            r@ == render_emails(self@),
    {
        let mut s = String::new();
        let mut i: usize = 0;
        while i < self.emails.len()
            invariant
                i <= self.emails.len(),
                s@ == render_emails(self@.take(i as int)),
            decreases self.emails.len() - i,
        {
            if i > 0 {
                s.append(",");
            }
            let part = self.emails[i].to_string();
            s.append(part.as_str());
            proof {
                lemma_render_emails_snoc(self@.take(i as int), self@[i as int]);
                assert(self@.take(i + 1 as int) =~= self@.take(i as int).push(self@[i as int]));
            }
            i += 1;
        }
        proof {
            assert(self@.take(self.emails.len() as int) =~= self@);
        }
        s
    }
}

impl Clone for EmailList {
    fn clone(&self) -> (r: Self)
        ensures
            r@ == self@,
    {
        let mut emails: Vec<Email> = Vec::new();
        let mut i: usize = 0;
        while i < self.emails.len()
            invariant
                i <= self.emails.len(),
                emails.deep_view() == self@.take(i as int),
            decreases self.emails.len() - i,
        {
            emails.push(self.emails[i].clone());
            proof {
                assert(emails.deep_view() =~= self@.take(i as int).push(self@[i as int]));
                assert(self@.take(i + 1 as int) =~= self@.take(i as int).push(self@[i as int]));
            }
            i += 1;
        }
        proof {
            assert(self@.take(self.emails.len() as int) =~= self@);
        }
        EmailList { emails }
    }
}

} // verus!
