//! The wire-parameter table: how each message field maps to a named
//! parameter of the outbound request body, and in which order.

use vstd::prelude::*;
use vstd::string::StringExecFns;

use crate::address::render_emails;
use crate::address::EmailView;
use crate::attachment::AttachmentView;
use crate::json::json_object;
use crate::message::MessageView;

verus! {

/// `yes` or `no`, the provider's spelling of a boolean option.
pub open spec fn bool_word(b: bool) -> Seq<char> {
    if b {
        "yes"@
    } else {
        "no"@
    }
}

/// Zero or one wire entries for an optional verbatim field.
pub open spec fn opt_entry(name: Seq<char>, v: Option<Seq<char>>) -> Seq<(Seq<char>, Seq<char>)> {
    match v {
        Some(s) => seq![(name, s)],
        None => Seq::empty(),
    }
}

/// Zero or one wire entries for an optional boolean field, spelled
/// `yes`/`no` when set.
pub open spec fn opt_bool_entry(name: Seq<char>, v: Option<bool>) -> Seq<(Seq<char>, Seq<char>)> {
    match v {
        Some(b) => seq![(name, bool_word(b))],
        None => Seq::empty(),
    }
}

/// One `yes` wire entry when the flag is set to true; nothing at all when it
/// is false or unset.
pub open spec fn flag_entry(name: Seq<char>, v: Option<bool>) -> Seq<(Seq<char>, Seq<char>)> {
    if v == Some(true) {
        seq![(name, "yes"@)]
    } else {
        Seq::empty()
    }
}

/// Zero or one wire entries for an optional email list, rendered as its
/// comma-joined member renderings.
pub open spec fn opt_list_entry(name: Seq<char>, v: Option<Seq<EmailView>>) -> Seq<
    (Seq<char>, Seq<char>),
> {
    match v {
        Some(l) => seq![(name, render_emails(l))],
        None => Seq::empty(),
    }
}

/// One wire entry per pair of an optional mapping, the key behind the given
/// prefix, in order.
pub open spec fn prefixed_entries(
    prefix: Seq<char>,
    v: Option<Seq<(Seq<char>, Seq<char>)>>,
) -> Seq<(Seq<char>, Seq<char>)> {
    match v {
        Some(ps) => ps.map_values(|p: (Seq<char>, Seq<char>)| (prefix + p.0, p.1)),
        None => Seq::empty(),
    }
}

/// Zero or one wire entries carrying an optional mapping as one JSON object.
pub open spec fn json_map_entry(name: Seq<char>, v: Option<Seq<(Seq<char>, Seq<char>)>>) -> Seq<
    (Seq<char>, Seq<char>),
> {
    match v {
        Some(ps) => seq![(name, json_object(ps))],
        None => Seq::empty(),
    }
}

/// The address block of the wire parameters: sender, recipients and subject.
pub open spec fn address_params(m: MessageView) -> Seq<(Seq<char>, Seq<char>)> {
    seq![("from"@, crate::address::email_render(m.from)), ("to"@, render_emails(m.to))]
        + opt_list_entry("cc"@, m.cc) + opt_list_entry("bcc"@, m.bcc) + seq![
        ("subject"@, m.subject),
    ]
}

/// The content block of the wire parameters: bodies and template fields.
/// The `t:text` flag appears (as `yes`) only when set to true.
pub open spec fn content_params(m: MessageView) -> Seq<(Seq<char>, Seq<char>)> {
    opt_entry("text"@, m.text) + opt_entry("html"@, m.html) + opt_entry("amp-html"@, m.amp_html)
        + opt_entry("template"@, m.template) + opt_entry("t:version"@, m.template_version)
        + flag_entry("t:text"@, m.template_text)
}

/// The delivery-option block of the wire parameters; the three boolean
/// options are spelled `yes`/`no` whenever set.
pub open spec fn option_params(m: MessageView) -> Seq<(Seq<char>, Seq<char>)> {
    opt_entry("o:tag"@, m.option_tag) + opt_entry("o:dkim"@, m.option_dkim) + opt_entry(
        "o:deliverytime"@,
        m.option_deliverytime,
    ) + opt_entry("o:testmode"@, m.option_testmode) + opt_entry("o:tracking"@, m.option_tracking)
        + opt_entry("o:tracking-clicks"@, m.option_tracking_clicks) + opt_bool_entry(
        "o:tracking-opens"@,
        m.option_tracking_opens,
    ) + opt_bool_entry("o:require-tls"@, m.option_require_tls) + opt_bool_entry(
        "o:skip-verification"@,
        m.option_skip_verification,
    )
}

/// The mapping block of the wire parameters: custom headers and data, one
/// entry per key behind its prefix, and the recipient variables as one JSON
/// object.
pub open spec fn map_params(m: MessageView) -> Seq<(Seq<char>, Seq<char>)> {
    prefixed_entries("h:"@, m.custom_headers) + prefixed_entries("v:"@, m.custom_data)
        + json_map_entry("recipient-variables"@, m.recipient_variables)
}

/// The ordered wire parameters of a message: every set field under its wire
/// name, in the declared field order; unset fields are omitted.
pub open spec fn wire_params(m: MessageView) -> Seq<(Seq<char>, Seq<char>)> {
    address_params(m) + content_params(m) + option_params(m) + map_params(m)
}

proof fn lemma_concat_contains_left<A>(a: Seq<A>, b: Seq<A>, x: A)
    requires
        a.contains(x),
    ensures
        (a + b).contains(x),
{
    let i = choose|i: int| 0 <= i < a.len() && a[i] == x;
    assert((a + b)[i] == x);
}

proof fn lemma_concat_contains_right<A>(a: Seq<A>, b: Seq<A>, x: A)
    requires
        b.contains(x),
    ensures
        (a + b).contains(x),
{
    let i = choose|i: int| 0 <= i < b.len() && b[i] == x;
    assert((a + b)[a.len() + i] == x);
}

/// Setting the template-text flag to false produces exactly the wire
/// parameters of leaving it unset: the `t:text` field is omitted, not
/// spelled `no`.
pub proof fn lemma_template_text_false_omitted(m: MessageView)
    requires
        m.template_text == Some(false),
    ensures
        wire_params(m) == wire_params((MessageView { template_text: None, ..m })),
{
    let m2 = MessageView { template_text: None, ..m };
    assert(flag_entry("t:text"@, m.template_text) =~= flag_entry("t:text"@, m2.template_text));
    assert(address_params(m) == address_params(m2));
    assert(content_params(m) == content_params(m2));
    assert(option_params(m) == option_params(m2));
    assert(map_params(m) == map_params(m2));
}

/// Whenever one of the three boolean delivery options is set, its wire
/// entry is present with the explicit word `yes` or `no`; and the
/// template-text flag set to true puts `t:text` as `yes` on the wire.
pub proof fn lemma_bool_options_explicit(m: MessageView)
    ensures
        m.option_tracking_opens matches Some(b) ==> wire_params(m).contains(
            (("o:tracking-opens"@, bool_word(b))),
        ),
        m.option_require_tls matches Some(b) ==> wire_params(m).contains(
            (("o:require-tls"@, bool_word(b))),
        ),
        m.option_skip_verification matches Some(b) ==> wire_params(m).contains(
            (("o:skip-verification"@, bool_word(b))),
        ),
        m.template_text == Some(true) ==> wire_params(m).contains((("t:text"@, "yes"@))),
{
    let s1 = opt_entry("o:tag"@, m.option_tag);
    let s2 = opt_entry("o:dkim"@, m.option_dkim);
    let s3 = opt_entry("o:deliverytime"@, m.option_deliverytime);
    let s4 = opt_entry("o:testmode"@, m.option_testmode);
    let s5 = opt_entry("o:tracking"@, m.option_tracking);
    let s6 = opt_entry("o:tracking-clicks"@, m.option_tracking_clicks);
    let s7 = opt_bool_entry("o:tracking-opens"@, m.option_tracking_opens);
    let s8 = opt_bool_entry("o:require-tls"@, m.option_require_tls);
    let s9 = opt_bool_entry("o:skip-verification"@, m.option_skip_verification);
    assert(option_params(m) == s1 + s2 + s3 + s4 + s5 + s6 + s7 + s8 + s9);
    if let Some(b) = m.option_tracking_opens {
        let e = ("o:tracking-opens"@, bool_word(b));
        assert(s7[0] == e);
        assert(s7.contains(e));
        lemma_concat_contains_right(s1 + s2 + s3 + s4 + s5 + s6, s7, e);
        lemma_concat_contains_left(s1 + s2 + s3 + s4 + s5 + s6 + s7, s8, e);
        lemma_concat_contains_left(s1 + s2 + s3 + s4 + s5 + s6 + s7 + s8, s9, e);
        lemma_option_entry_lifts(m, e);
    }
    if let Some(b) = m.option_require_tls {
        let e = ("o:require-tls"@, bool_word(b));
        assert(s8[0] == e);
        assert(s8.contains(e));
        lemma_concat_contains_right(s1 + s2 + s3 + s4 + s5 + s6 + s7, s8, e);
        lemma_concat_contains_left(s1 + s2 + s3 + s4 + s5 + s6 + s7 + s8, s9, e);
        lemma_option_entry_lifts(m, e);
    }
    if let Some(b) = m.option_skip_verification {
        let e = ("o:skip-verification"@, bool_word(b));
        assert(s9[0] == e);
        assert(s9.contains(e));
        lemma_concat_contains_right(s1 + s2 + s3 + s4 + s5 + s6 + s7 + s8, s9, e);
        lemma_option_entry_lifts(m, e);
    }
    if m.template_text == Some(true) {
        let e = ("t:text"@, "yes"@);
        assert(flag_entry("t:text"@, m.template_text)[0] == e);
        assert(flag_entry("t:text"@, m.template_text).contains(e));
        lemma_concat_contains_right(
            opt_entry("text"@, m.text) + opt_entry("html"@, m.html) + opt_entry(
                "amp-html"@,
                m.amp_html,
            ) + opt_entry("template"@, m.template) + opt_entry("t:version"@, m.template_version),
            flag_entry("t:text"@, m.template_text),
            e,
        );
        assert(content_params(m).contains(e));
        lemma_concat_contains_right(address_params(m), content_params(m), e);
        lemma_concat_contains_left(address_params(m) + content_params(m), option_params(m), e);
        lemma_concat_contains_left(
            address_params(m) + content_params(m) + option_params(m),
            map_params(m),
            e,
        );
    }
}

/// No entry of the list carries the given key.
pub open spec fn no_key(entries: Seq<(Seq<char>, Seq<char>)>, key: Seq<char>) -> bool {
    forall|i: int| 0 <= i < entries.len() ==> (#[trigger] entries[i]).0 != key
}

proof fn lemma_no_key_concat(a: Seq<(Seq<char>, Seq<char>)>, b: Seq<(Seq<char>, Seq<char>)>, key: Seq<char>)
    requires
        no_key(a, key),
        no_key(b, key),
    ensures
        no_key(a + b, key),
{
    assert forall|i: int| 0 <= i < (a + b).len() implies (#[trigger] (a + b)[i]).0 != key by {
        if i < a.len() {
            assert((a + b)[i] == a[i]);
        } else {
            assert((a + b)[i] == b[i - a.len()]);
        }
    }
}

proof fn lemma_no_key_prefixed(
    prefix: Seq<char>,
    v: Option<Seq<(Seq<char>, Seq<char>)>>,
    key: Seq<char>,
)
    requires
        prefix.len() > 0,
        key.len() > 0,
        prefix[0] != key[0],
    ensures
        no_key(prefixed_entries(prefix, v), key),
{
    if let Some(ps) = v {
        assert forall|i: int|
            0 <= i < prefixed_entries(prefix, v).len() implies (#[trigger] prefixed_entries(
            prefix,
            v,
        )[i]).0 != key by {
            assert(prefixed_entries(prefix, v)[i].0 == prefix + ps[i].0);
            assert((prefix + ps[i].0)[0] == prefix[0]);
        }
    }
}

/// Unless the template-text flag is set to true, no wire entry at all
/// carries the `t:text` key: the field is absent, not spelled `no`. Every
/// other field sits under its own fixed name, and the per-key mapping
/// entries all sit behind the `h:` or `v:` prefix.
pub proof fn lemma_template_text_absent(m: MessageView)
    requires
        m.template_text != Some(true),
    ensures
        no_key(wire_params(m), "t:text"@),
{
    let key = "t:text"@;
    assert(no_key(address_params(m), key)) by {
        reveal_strlit("t:text");
        reveal_strlit("from");
        reveal_strlit("to");
        reveal_strlit("cc");
        reveal_strlit("bcc");
        reveal_strlit("subject");
        assert(key.len() == 6);
        assert(("from"@).len() == 4 && ("to"@).len() == 2 && ("cc"@).len() == 2 && (
        "bcc"@).len() == 3 && ("subject"@).len() == 7);
    }
    assert(no_key(content_params(m), key)) by {
        reveal_strlit("t:text");
        reveal_strlit("text");
        reveal_strlit("html");
        reveal_strlit("amp-html");
        reveal_strlit("template");
        reveal_strlit("t:version");
        assert(key.len() == 6);
        assert(("text"@).len() == 4 && ("html"@).len() == 4 && ("amp-html"@).len() == 8 && (
        "template"@).len() == 8 && ("t:version"@).len() == 9);
        assert(flag_entry(key, m.template_text) =~= Seq::<(Seq<char>, Seq<char>)>::empty());
    }
    assert(no_key(option_params(m), key)) by {
        reveal_strlit("t:text");
        reveal_strlit("o:tag");
        reveal_strlit("o:dkim");
        reveal_strlit("o:deliverytime");
        reveal_strlit("o:testmode");
        reveal_strlit("o:tracking");
        reveal_strlit("o:tracking-clicks");
        reveal_strlit("o:tracking-opens");
        reveal_strlit("o:require-tls");
        reveal_strlit("o:skip-verification");
        assert(key.len() == 6 && key[0] == 't');
        assert(("o:tag"@).len() == 5 && ("o:deliverytime"@).len() == 14 && (
        "o:testmode"@).len() == 10 && ("o:tracking"@).len() == 10 && (
        "o:tracking-clicks"@).len() == 17 && ("o:tracking-opens"@).len() == 16 && (
        "o:require-tls"@).len() == 13 && ("o:skip-verification"@).len() == 19);
        assert(("o:dkim"@)[0] == 'o');
    }
    assert(no_key(map_params(m), key)) by {
        reveal_strlit("t:text");
        reveal_strlit("h:");
        reveal_strlit("v:");
        reveal_strlit("recipient-variables");
        assert(key.len() == 6 && key[0] == 't');
        assert(("h:"@).len() == 2 && ("h:"@)[0] == 'h');
        assert(("v:"@).len() == 2 && ("v:"@)[0] == 'v');
        assert(("recipient-variables"@).len() == 19);
        lemma_no_key_prefixed("h:"@, m.custom_headers, key);
        lemma_no_key_prefixed("v:"@, m.custom_data, key);
    }
    lemma_no_key_concat(address_params(m), content_params(m), key);
    lemma_no_key_concat(address_params(m) + content_params(m), option_params(m), key);
    lemma_no_key_concat(
        address_params(m) + content_params(m) + option_params(m),
        map_params(m),
        key,
    );
}

/// An entry of the delivery-option block is an entry of the whole wire
/// parameter list.
proof fn lemma_option_entry_lifts(m: MessageView, e: (Seq<char>, Seq<char>))
    requires
        option_params(m).contains(e),
    ensures
        wire_params(m).contains(e),
{
    lemma_concat_contains_right(address_params(m) + content_params(m), option_params(m), e);
    lemma_concat_contains_left(
        address_params(m) + content_params(m) + option_params(m),
        map_params(m),
        e,
    );
}

/// The file parts of an optional attachment list: one (field name, source
/// path) pair per attachment, in order.
pub open spec fn attachment_parts(l: Option<Seq<AttachmentView>>) -> Seq<(Seq<char>, Seq<char>)> {
    match l {
        Some(s) => s.map_values(|a: AttachmentView| (a.name, a.file_path)),
        None => Seq::empty(),
    }
}

/// The ordered file parts of a message: its attachments, then its inline
/// attachments.
pub open spec fn file_parts(m: MessageView) -> Seq<(Seq<char>, Seq<char>)> {
    attachment_parts(m.attachment) + attachment_parts(m.inline)
}

/// Append one wire entry.
pub(crate) fn push_entry(v: &mut Vec<(String, String)>, name: &str, value: String)
    ensures
        final(v).deep_view() == old(v).deep_view().push((name@, value@)),
{
    let ghost value_view = value@;
    v.push((name.to_owned(), value));
    proof {
        assert(v.deep_view() =~= old(v).deep_view().push((name@, value_view)));
    }
}

/// Append the wire entry of an optional verbatim field, if set.
pub(crate) fn push_opt_entry(v: &mut Vec<(String, String)>, name: &str, value: &Option<String>)
    ensures
        final(v).deep_view() == old(v).deep_view() + opt_entry(
            name@,
            crate::message::opt_string_view(*value),
        ),
{
    match value {
        Some(s) => {
            push_entry(v, name, s.clone());
            proof {
                assert(v.deep_view() =~= old(v).deep_view() + opt_entry(name@, Some(s@)));
            }
        },
        None => {
            proof {
                assert(v.deep_view() =~= old(v).deep_view() + opt_entry(
                    name@,
                    crate::message::opt_string_view(*value),
                ));
            }
        },
    }
}

/// Append the wire entry of an optional boolean field, spelled `yes`/`no`,
/// if set.
pub(crate) fn push_opt_bool_entry(v: &mut Vec<(String, String)>, name: &str, value: Option<bool>)
    ensures
        final(v).deep_view() == old(v).deep_view() + opt_bool_entry(name@, value),
{
    match value {
        Some(b) => {
            let word = if b {
                "yes"
            } else {
                "no"
            };
            push_entry(v, name, word.to_owned());
            proof {
                assert(v.deep_view() =~= old(v).deep_view() + opt_bool_entry(name@, value));
            }
        },
        None => {
            proof {
                assert(v.deep_view() =~= old(v).deep_view() + opt_bool_entry(name@, value));
            }
        },
    }
}

/// Append the wire entry of a flag that is carried (as `yes`) only when set
/// to true.
pub(crate) fn push_flag_entry(v: &mut Vec<(String, String)>, name: &str, value: Option<bool>)
    ensures
        final(v).deep_view() == old(v).deep_view() + flag_entry(name@, value),
{
    let set = match value {
        Some(b) => b,
        None => false,
    };
    if set {
        push_entry(v, name, "yes".to_owned());
    }
    proof {
        assert(v.deep_view() =~= old(v).deep_view() + flag_entry(name@, value));
    }
}

/// The optional member views of an optional email list value.
pub open spec fn opt_email_list_view(o: Option<crate::address::EmailList>) -> Option<
    Seq<EmailView>,
> {
    match o {
        Some(l) => Some(l@),
        None => None,
    }
}

/// The optional member views of an optional attachment list value.
pub open spec fn opt_attachment_list_view(o: Option<crate::attachment::AttachmentList>) -> Option<
    Seq<AttachmentView>,
> {
    match o {
        Some(l) => Some(l@),
        None => None,
    }
}

/// Append the wire entry of an optional email list, rendered, if set.
pub(crate) fn push_opt_email_list(
    v: &mut Vec<(String, String)>,
    name: &str,
    value: &Option<crate::address::EmailList>,
)
    ensures
        final(v).deep_view() == old(v).deep_view() + opt_list_entry(
            name@,
            opt_email_list_view(*value),
        ),
{
    match value {
        Some(l) => {
            push_entry(v, name, l.to_string());
            proof {
                assert(v.deep_view() =~= old(v).deep_view() + opt_list_entry(name@, Some(l@)));
            }
        },
        None => {
            proof {
                assert(v.deep_view() =~= old(v).deep_view() + opt_list_entry(
                    name@,
                    opt_email_list_view(*value),
                ));
            }
        },
    }
}

/// Append the file parts of an optional attachment list: one (field name,
/// source path) pair per attachment, in order.
pub(crate) fn push_attachment_parts(
    v: &mut Vec<(String, String)>,
    value: &Option<crate::attachment::AttachmentList>,
)
    ensures
        final(v).deep_view() == old(v).deep_view() + attachment_parts(
            opt_attachment_list_view(*value),
        ),
{
    match value {
        Some(list) => {
            let items = list.attachments();
            let ghost lv = list@;
            let mut i: usize = 0;
            while i < items.len()
                invariant
                    i <= items.len(),
                    items.deep_view() == lv,
                    lv.len() == items.len(),
                    v.deep_view() == old(v).deep_view() + attachment_parts(
                        Some(lv.take(i as int)),
                    ),
                decreases items.len() - i,
            {
                let item = &items[i];
                push_entry_owned(v, item.name().to_owned(), item.file_path().to_owned());
                proof {
                    assert(v.deep_view() =~= old(v).deep_view() + attachment_parts(
                        Some(lv.take(i + 1 as int)),
                    ));
                }
                i += 1;
            }
            proof {
                assert(lv.take(items.len() as int) =~= lv);
            }
        },
        None => {
            proof {
                assert(v.deep_view() =~= old(v).deep_view() + attachment_parts(
                    opt_attachment_list_view(*value),
                ));
            }
        },
    }
}

/// Append one wire entry from owned parts.
pub(crate) fn push_entry_owned(v: &mut Vec<(String, String)>, name: String, value: String)
    ensures
        final(v).deep_view() == old(v).deep_view().push((name@, value@)),
{
    let ghost name_view = name@;
    let ghost value_view = value@;
    v.push((name, value));
    proof {
        assert(v.deep_view() =~= old(v).deep_view().push((name_view, value_view)));
    }
}

/// Append one wire entry per pair of an optional mapping, the key behind the
/// given prefix, in order.
pub(crate) fn push_prefixed_entries(
    v: &mut Vec<(String, String)>,
    prefix: &str,
    value: &Option<Vec<(String, String)>>,
)
    ensures
        final(v).deep_view() == old(v).deep_view() + prefixed_entries(
            prefix@,
            crate::message::opt_pairs_deep(*value),
        ),
{
    match value {
        Some(pairs) => {
            let ghost pv = pairs.deep_view();
            let mut i: usize = 0;
            while i < pairs.len()
                invariant
                    i <= pairs.len(),
                    pv == pairs.deep_view(),
                    pv.len() == pairs.len(),
                    v.deep_view() == old(v).deep_view() + prefixed_entries(
                        prefix@,
                        Some(pv.take(i as int)),
                    ),
                decreases pairs.len() - i,
            {
                let mut name = prefix.to_owned();
                name.append(pairs[i].0.as_str());
                let value = pairs[i].1.clone();
                let ghost name_view = name@;
                let ghost value_view = value@;
                v.push((name, value));
                proof {
                    assert(name_view == prefix@ + pv[i as int].0);
                    assert(value_view == pv[i as int].1);
                    assert(v.deep_view() =~= (old(v).deep_view() + prefixed_entries(
                        prefix@,
                        Some(pv.take(i as int)),
                    )).push((name_view, value_view)));
                    assert(prefixed_entries(prefix@, Some(pv.take(i + 1 as int))) =~=
                        prefixed_entries(prefix@, Some(pv.take(i as int))).push((
                        prefix@ + pv[i as int].0,
                        pv[i as int].1,
                    )));
                    assert(v.deep_view() =~= old(v).deep_view() + prefixed_entries(
                        prefix@,
                        Some(pv.take(i + 1 as int)),
                    ));
                }
                i += 1;
            }
            proof {
                assert(pv.take(pairs.len() as int) =~= pv);
            }
        },
        None => {
            proof {
                assert(v.deep_view() =~= old(v).deep_view() + prefixed_entries(
                    prefix@,
                    crate::message::opt_pairs_deep(*value),
                ));
            }
        },
    }
}

/// Append the wire entry carrying an optional mapping as one JSON object,
/// if set.
pub(crate) fn push_json_map_entry(
    v: &mut Vec<(String, String)>,
    name: &str,
    value: &Option<Vec<(String, String)>>,
)
    ensures
        final(v).deep_view() == old(v).deep_view() + json_map_entry(
            name@,
            crate::message::opt_pairs_deep(*value),
        ),
{
    match value {
        Some(pairs) => {
            let encoded = crate::json::json_object_string(pairs);
            push_entry(v, name, encoded);
            proof {
                assert(v.deep_view() =~= old(v).deep_view() + json_map_entry(
                    name@,
                    Some(pairs.deep_view()),
                ));
            }
        },
        None => {
            proof {
                assert(v.deep_view() =~= old(v).deep_view() + json_map_entry(
                    name@,
                    crate::message::opt_pairs_deep(*value),
                ));
            }
        },
    }
}

} // verus!
