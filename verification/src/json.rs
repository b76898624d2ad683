//! JSON rendering of a string-to-string mapping, used for the wire field
//! that carries the whole mapping as one JSON object.

use vstd::prelude::*;
use vstd::string::StringExecFns;

verus! {

/// A lower-case hexadecimal digit.
pub open spec fn hex_lower(n: u8) -> char
    recommends
        n < 16,
{
    if n == 0 { '0' } else if n == 1 { '1' } else if n == 2 { '2' } else if n == 3 { '3' }
    else if n == 4 { '4' } else if n == 5 { '5' } else if n == 6 { '6' } else if n == 7 { '7' }
    else if n == 8 { '8' } else if n == 9 { '9' } else if n == 10 { 'a' } else if n == 11 { 'b' }
    else if n == 12 { 'c' } else if n == 13 { 'd' } else if n == 14 { 'e' } else { 'f' }
}

/// How one character is escaped inside a JSON string: quote and backslash
/// with a backslash, control characters with their short escapes or
/// `\u00xx`, anything else unchanged.
pub open spec fn json_escape_char(c: char) -> Seq<char> {
    if c == '"' {
        seq!['\\', '"']
    } else if c == '\\' {
        seq!['\\', '\\']
    } else if c == '\u{8}' {
        seq!['\\', 'b']
    } else if c == '\t' {
        seq!['\\', 't']
    } else if c == '\n' {
        seq!['\\', 'n']
    } else if c == '\u{c}' {
        seq!['\\', 'f']
    } else if c == '\r' {
        seq!['\\', 'r']
    } else if (c as u32) < 32 {
        seq!['\\', 'u', '0', '0', hex_lower((c as u32 / 16) as u8), hex_lower((c as u32 % 16) as u8)]
    } else {
        seq![c]
    }
}

/// The escaped body of a JSON string, character for character.
pub open spec fn json_escape(s: Seq<char>) -> Seq<char>
    decreases s.len(),
{
    if s.len() == 0 {
        Seq::empty()
    } else {
        json_escape_char(s[0]) + json_escape(s.drop_first())
    }
}

/// A JSON string: the escaped body between quotes.
pub open spec fn json_string(s: Seq<char>) -> Seq<char> {
    seq!['"'] + json_escape(s) + seq!['"']
}

/// One member of a JSON object: `"key":"value"`.
pub open spec fn json_member(p: (Seq<char>, Seq<char>)) -> Seq<char> {
    json_string(p.0) + seq![':'] + json_string(p.1)
}

/// The members of a JSON object joined by `,`, in order.
pub open spec fn json_members(pairs: Seq<(Seq<char>, Seq<char>)>) -> Seq<char>
    decreases pairs.len(),
{
    if pairs.len() == 0 {
        Seq::empty()
    } else if pairs.len() == 1 {
        json_member(pairs[0])
    } else {
        json_member(pairs[0]) + seq![','] + json_members(pairs.drop_first())
    }
}

/// A JSON object over a pair sequence: the members between braces, in order.
pub open spec fn json_object(pairs: Seq<(Seq<char>, Seq<char>)>) -> Seq<char> {
    seq!['{'] + json_members(pairs) + seq!['}']
}

/// Escaping a string one character longer appends that character's escape.
pub proof fn lemma_json_escape_snoc(s: Seq<char>, c: char)
    ensures
        json_escape(s.push(c)) == json_escape(s) + json_escape_char(c),
    decreases s.len(),
{
    if s.len() == 0 {
        assert(s.push(c) =~= seq![c]);
        assert(s.push(c).drop_first() =~= Seq::<char>::empty());
        assert(json_escape(s.push(c).drop_first()) == Seq::<char>::empty());
        assert(json_escape(s.push(c)) =~= json_escape(s) + json_escape_char(c));
    } else {
        assert(s.push(c).drop_first() =~= s.drop_first().push(c));
        lemma_json_escape_snoc(s.drop_first(), c);
        assert(json_escape(s.push(c)) =~= json_escape(s) + json_escape_char(c));
    }
}

/// Adding one member to a rendered object body appends `,` and its rendering
/// (nothing but the one rendering when the object was empty).
pub proof fn lemma_json_members_snoc(pairs: Seq<(Seq<char>, Seq<char>)>, p: (Seq<char>, Seq<char>))
    ensures
        json_members(pairs.push(p)) == if pairs.len() == 0 {
            json_member(p)
        } else {
            json_members(pairs) + seq![','] + json_member(p)
        },
    decreases pairs.len(),
{
    if pairs.len() == 0 {
        assert(pairs.push(p) =~= seq![p]);
    } else {
        assert(pairs.push(p).drop_first() =~= pairs.drop_first().push(p));
        lemma_json_members_snoc(pairs.drop_first(), p);
        if pairs.len() == 1 {
            assert(pairs.drop_first().len() == 0);
        }
    }
}

/// Relies on String::push: appends the one character.
#[verifier::external_body]
fn push_char(s: &mut String, c: char)
    ensures
        final(s)@ == old(s)@ + seq![c],
{
    s.push(c);
}

/// A lower-case hexadecimal digit.
fn hex_lower_digit(n: u8) -> (r: char)
    requires
        n < 16,
    ensures
        r == hex_lower(n),
{
    match n {
        0 => '0',
        1 => '1',
        2 => '2',
        3 => '3',
        4 => '4',
        5 => '5',
        6 => '6',
        7 => '7',
        8 => '8',
        9 => '9',
        10 => 'a',
        11 => 'b',
        12 => 'c',
        13 => 'd',
        14 => 'e',
        _ => 'f',
    }
}

/// Append the escaped body of `t` to `s`.
fn push_json_escaped(s: &mut String, t: &str)
    ensures
        final(s)@ == old(s)@ + json_escape(t@),
{
    let n = t.unicode_len();
    let mut i: usize = 0;
    while i < n
        invariant
            n == t@.len(),
            i <= n,
            s@ == old(s)@ + json_escape(t@.take(i as int)),
        decreases n - i,
    {
        let c = t.get_char(i);
        if c == '"' {
            push_char(s, '\\');
            push_char(s, '"');
        } else if c == '\\' {
            push_char(s, '\\');
            push_char(s, '\\');
        } else if c == '\u{8}' {
            push_char(s, '\\');
            push_char(s, 'b');
        } else if c == '\t' {
            push_char(s, '\\');
            push_char(s, 't');
        } else if c == '\n' {
            push_char(s, '\\');
            push_char(s, 'n');
        } else if c == '\u{c}' {
            push_char(s, '\\');
            push_char(s, 'f');
        } else if c == '\r' {
            push_char(s, '\\');
            push_char(s, 'r');
        } else if (c as u32) < 32 {
            push_char(s, '\\');
            push_char(s, 'u');
            push_char(s, '0');
            push_char(s, '0');
            push_char(s, hex_lower_digit((c as u32 / 16) as u8));
            push_char(s, hex_lower_digit((c as u32 % 16) as u8));
        } else {
            push_char(s, c);
        }
        proof {
            lemma_json_escape_snoc(t@.take(i as int), t@[i as int]);
            assert(t@.take(i + 1 as int) =~= t@.take(i as int).push(t@[i as int]));
            assert(s@ =~= old(s)@ + json_escape(t@.take(i + 1 as int)));
        }
        i += 1;
    }
    proof {
        assert(t@.take(n as int) =~= t@);
    }
}

/// Append the JSON string rendering of `t` to `s`.
fn push_json_string(s: &mut String, t: &str)
    ensures
        final(s)@ == old(s)@ + json_string(t@),
{
    push_char(s, '"');
    push_json_escaped(s, t);
    push_char(s, '"');
    proof {
        assert(s@ =~= old(s)@ + json_string(t@));
    }
}

/// Render a string-to-string mapping, given as ordered pairs, as one JSON
/// object, members in the given order.
pub fn json_object_string(pairs: &Vec<(String, String)>) -> (r: String)
    ensures
        r@ == json_object(pairs.deep_view()),
{
    let ghost pv = pairs.deep_view();
    let mut s = String::new();
    push_char(&mut s, '{');
    let mut i: usize = 0;
    while i < pairs.len()
        invariant
            i <= pairs.len(),
            pv == pairs.deep_view(),
            pv.len() == pairs.len(),
            s@ == seq!['{'] + json_members(pv.take(i as int)),
        decreases pairs.len() - i,
    {
        if i > 0 {
            push_char(&mut s, ',');
        }
        push_json_string(&mut s, pairs[i].0.as_str());
        push_char(&mut s, ':');
        push_json_string(&mut s, pairs[i].1.as_str());
        proof {
            lemma_json_members_snoc(pv.take(i as int), pv[i as int]);
            assert(pv.take(i + 1 as int) =~= pv.take(i as int).push(pv[i as int]));
            assert(s@ =~= seq!['{'] + json_members(pv.take(i + 1 as int)));
        }
        i += 1;
    }
    push_char(&mut s, '}');
    proof {
        assert(pv.take(pairs.len() as int) =~= pv);
        assert(s@ =~= json_object(pv));
    }
    s
}

} // verus!
