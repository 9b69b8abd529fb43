//! The wire format of the relay: every frame the server sends is a small
//! JSON object, built here character by character so that each builder's
//! contract pins the exact text that goes out.
//!
//! Strings are escaped the way the surrounding ecosystem expects: the quote
//! and the backslash get a backslash, the common control characters get their
//! short escapes, every other control character becomes a `\u00..` sequence,
//! and everything else is passed through unchanged.

use vstd::prelude::*;
use vstd::string::StrSliceExecFns;
use vstd::string::StringExecFns;

use crate::socket_server::{SocketMessage, UpdateType};
use crate::user::{User, UserMode, UserPermissions};

verus! {

/// The lower-case hexadecimal digit for a value below sixteen.
pub open spec fn hex_digit_char(n: int) -> char {
    if n == 0 {
        '0'
    } else if n == 1 {
        '1'
    } else if n == 2 {
        '2'
    } else if n == 3 {
        '3'
    } else if n == 4 {
        '4'
    } else if n == 5 {
        '5'
    } else if n == 6 {
        '6'
    } else if n == 7 {
        '7'
    } else if n == 8 {
        '8'
    } else if n == 9 {
        '9'
    } else if n == 10 {
        'a'
    } else if n == 11 {
        'b'
    } else if n == 12 {
        'c'
    } else if n == 13 {
        'd'
    } else if n == 14 {
        'e'
    } else {
        'f'
    }
}

/// What one character contributes to an escaped JSON string.
pub open spec fn escape_char(c: char) -> Seq<char> {
    if c == '"' {
        seq!['\\', '"']
    } else if c == '\\' {
        seq!['\\', '\\']
    } else if c == '\u{8}' {
        seq!['\\', 'b']
    } else if c == '\t' {
        seq!['\\', 't']
    } else if c == '\n' {
        seq!['\\', 'n']
    } else if c == '\u{c}' {
        seq!['\\', 'f']
    } else if c == '\r' {
        seq!['\\', 'r']
    } else if (c as u32) < 0x20 {
        seq!['\\', 'u', '0', '0', hex_digit_char(((c as u32) / 16) as int), hex_digit_char(
            ((c as u32) % 16) as int,
        )]
    } else {
        seq![c]
    }
}

/// The body of a JSON string: every character escaped, in order.
pub open spec fn json_escaped(s: Seq<char>) -> Seq<char>
    decreases s.len(),
{
    if s.len() == 0 {
        Seq::empty()
    } else {
        escape_char(s[0]) + json_escaped(s.skip(1))
    }
}

/// A complete JSON string token: quote, escaped body, quote.
pub open spec fn json_string(s: Seq<char>) -> Seq<char> {
    seq!['"'] + json_escaped(s) + seq!['"']
}

/// Escaping a string one character longer appends that character's escape.
pub proof fn lemma_json_escaped_push(s: Seq<char>, c: char)
    ensures
        json_escaped(s.push(c)) == json_escaped(s) + escape_char(c),
    decreases s.len(),
{
    if s.len() == 0 {
        assert(s.push(c)[0] == c);
        assert(s.push(c).skip(1) =~= Seq::<char>::empty());
        assert(s =~= Seq::<char>::empty());
        assert(json_escaped(Seq::<char>::empty()) == Seq::<char>::empty());
        assert(json_escaped(s.push(c)) == escape_char(c) + json_escaped(Seq::<char>::empty()));
        assert(escape_char(c) + Seq::<char>::empty() =~= escape_char(c));
        assert(Seq::<char>::empty() + escape_char(c) =~= escape_char(c));
        assert(json_escaped(s.push(c)) =~= json_escaped(s) + escape_char(c));
    } else {
        assert(s.push(c)[0] == s[0]);
        assert(s.push(c).skip(1) =~= s.skip(1).push(c));
        lemma_json_escaped_push(s.skip(1), c);
        assert(json_escaped(s.push(c)) =~= json_escaped(s) + escape_char(c));
    }
}

/// Relies on std's String::push: appends exactly the one character.
#[verifier::external_body]
pub(crate) fn push_char(out: &mut String, c: char)
    ensures
        final(out)@ == old(out)@.push(c),
{
    out.push(c);
}

/// Appends the lower-case hexadecimal digit of a value below sixteen.
fn push_hex_digit(out: &mut String, n: u32)
    requires
        n < 16,
    ensures
        final(out)@ == old(out)@.push(hex_digit_char(n as int)),
{
    if n == 0 {
        push_char(out, '0')
    } else if n == 1 {
        push_char(out, '1')
    } else if n == 2 {
        push_char(out, '2')
    } else if n == 3 {
        push_char(out, '3')
    } else if n == 4 {
        push_char(out, '4')
    } else if n == 5 {
        push_char(out, '5')
    } else if n == 6 {
        push_char(out, '6')
    } else if n == 7 {
        push_char(out, '7')
    } else if n == 8 {
        push_char(out, '8')
    } else if n == 9 {
        push_char(out, '9')
    } else if n == 10 {
        push_char(out, 'a')
    } else if n == 11 {
        push_char(out, 'b')
    } else if n == 12 {
        push_char(out, 'c')
    } else if n == 13 {
        push_char(out, 'd')
    } else if n == 14 {
        push_char(out, 'e')
    } else {
        push_char(out, 'f')
    }
}

/// Appends the escape of one character.
fn push_escaped_char(out: &mut String, c: char)
    ensures
        final(out)@ == old(out)@ + escape_char(c),
{
    if c == '"' {
        push_char(out, '\\');
        push_char(out, '"');
    } else if c == '\\' {
        push_char(out, '\\');
        push_char(out, '\\');
    } else if c == '\u{8}' {
        push_char(out, '\\');
        push_char(out, 'b');
    } else if c == '\t' {
        push_char(out, '\\');
        push_char(out, 't');
    } else if c == '\n' {
        push_char(out, '\\');
        push_char(out, 'n');
    } else if c == '\u{c}' {
        push_char(out, '\\');
        push_char(out, 'f');
    } else if c == '\r' {
        push_char(out, '\\');
        push_char(out, 'r');
    } else if (c as u32) < 0x20 {
        let v = c as u32;
        push_char(out, '\\');
        push_char(out, 'u');
        push_char(out, '0');
        push_char(out, '0');
        push_hex_digit(out, v / 16);
        push_hex_digit(out, v % 16);
    } else {
        push_char(out, c);
    }
    proof {
        assert(out@ =~= old(out)@ + escape_char(c));
    }
}

/// Appends the escaped body of `s`.
pub fn append_json_escaped(out: &mut String, s: &str)
    ensures
        final(out)@ == old(out)@ + json_escaped(s@),
{
    let n = s.unicode_len();
    proof {
        assert(old(out)@ + json_escaped(s@.subrange(0, 0)) =~= old(out)@);
    }
    let mut i: usize = 0;
    while i < n
        invariant
            n == s@.len(),
            i <= n,
            out@ == old(out)@ + json_escaped(s@.subrange(0, i as int)),
        decreases n - i,
    {
        let c = s.get_char(i);
        proof {
            assert(s@.subrange(0, i + 1) =~= s@.subrange(0, i as int).push(s@[i as int]));
            lemma_json_escaped_push(s@.subrange(0, i as int), s@[i as int]);
        }
        push_escaped_char(out, c);
        i = i + 1;
    }
    proof {
        assert(s@.subrange(0, n as int) =~= s@);
    }
}

/// Appends the complete JSON string token for `s`.
pub fn append_json_string(out: &mut String, s: &str)
    ensures
        final(out)@ == old(out)@ + json_string(s@),
{
    push_char(out, '"');
    append_json_escaped(out, s);
    push_char(out, '"');
    proof {
        assert(out@ =~= old(out)@ + json_string(s@));
    }
}

/// The decimal text of a number: most significant digit first, no sign, no
/// leading zero except for zero itself.
pub open spec fn dec_str(n: nat) -> Seq<char>
    decreases n,
{
    if n < 10 {
        seq![hex_digit_char(n as int)]
    } else {
        dec_str(n / 10).push(hex_digit_char((n % 10) as int))
    }
}

/// Appends the decimal text of `n`.
pub fn append_dec(out: &mut String, n: usize)
    ensures
        final(out)@ == old(out)@ + dec_str(n as nat),
{
    if n < 10 {
        push_hex_digit(out, (n % 16) as u32);
        proof {
            assert(out@ =~= old(out)@ + dec_str(n as nat));
        }
        return ;
    }
    // Collect the digits least significant first, then emit them reversed.
    let mut digits: Vec<char> = Vec::new();
    let mut m = n;
    while m > 0
        invariant
            n >= 10,
            m > 0 ==> dec_str(n as nat) == dec_str(m as nat) + digits@.reverse(),
            m == 0 ==> dec_str(n as nat) == digits@.reverse(),
        decreases m,
    {
        let d = (m % 10) as u32;
        let ghost prev = digits@;
        push_hex_digit_vec(&mut digits, d);
        proof {
            assert(digits@ =~= prev.push(hex_digit_char(d as int)));
            if m >= 10 {
                assert(dec_str(m as nat) == dec_str((m / 10) as nat).push(
                    hex_digit_char((m % 10) as int),
                ));
                assert(dec_str((m / 10) as nat) + digits@.reverse() =~= dec_str(m as nat)
                    + prev.reverse());
            } else {
                assert(dec_str(m as nat) =~= seq![hex_digit_char((m % 10) as int)]);
                assert(digits@.reverse() =~= dec_str(m as nat) + prev.reverse());
            }
        }
        m = m / 10;
    }
    let mut i = digits.len();
    proof {
        assert(out@ + digits@.reverse().subrange(0, 0) =~= out@);
    }
    let ghost start = out@;
    while i > 0
        invariant
            i <= digits@.len(),
            out@ == start + digits@.reverse().subrange(0, digits@.len() - i),
        decreases i,
    {
        i = i - 1;
        let c = digits[i];
        push_char(out, c);
        proof {
            let k = digits@.len() - i;
            assert(digits@.reverse()[k - 1] == digits@[i as int]);
            assert(digits@.reverse().subrange(0, k) =~= digits@.reverse().subrange(0, k - 1).push(
                digits@[i as int],
            ));
            assert(out@ =~= start + digits@.reverse().subrange(0, k));
        }
    }
    proof {
        assert(digits@.reverse().subrange(0, digits@.len() as int) =~= digits@.reverse());
        assert(out@ =~= old(out)@ + dec_str(n as nat));
    }
}

/// Pushes the digit character for a value below sixteen onto a vector.
fn push_hex_digit_vec(digits: &mut Vec<char>, n: u32)
    requires
        n < 16,
    ensures
        final(digits)@ == old(digits)@.push(hex_digit_char(n as int)),
{
    if n == 0 {
        digits.push('0')
    } else if n == 1 {
        digits.push('1')
    } else if n == 2 {
        digits.push('2')
    } else if n == 3 {
        digits.push('3')
    } else if n == 4 {
        digits.push('4')
    } else if n == 5 {
        digits.push('5')
    } else if n == 6 {
        digits.push('6')
    } else if n == 7 {
        digits.push('7')
    } else if n == 8 {
        digits.push('8')
    } else if n == 9 {
        digits.push('9')
    } else if n == 10 {
        digits.push('a')
    } else if n == 11 {
        digits.push('b')
    } else if n == 12 {
        digits.push('c')
    } else if n == 13 {
        digits.push('d')
    } else if n == 14 {
        digits.push('e')
    } else {
        digits.push('f')
    }
}

/// The JSON text of a frame kind tag.
pub open spec fn update_type_json(t: UpdateType) -> Seq<char> {
    match t {
        UpdateType::MESSAGE => "\"MESSAGE\""@,
        UpdateType::SYSTEM => "\"SYSTEM\""@,
        UpdateType::ERROR => "\"ERROR\""@,
    }
}

/// The JSON text of a boolean.
pub open spec fn bool_json(b: bool) -> Seq<char> {
    if b {
        "true"@
    } else {
        "false"@
    }
}

/// The opening of the user object: its kind and its permission tier.
pub open spec fn user_json_head(u: User) -> Seq<char> {
    "{\"user_type\":"@ + (match u.user_type {
        UserMode::User => "\"User\""@,
        UserMode::Bot => "\"Bot\""@,
    }) + ",\"permission_level\":"@ + (match u.permission_level {
        UserPermissions::User => "\"User\""@,
        UserPermissions::Moderator => "\"Moderator\""@,
        UserPermissions::Admin => "\"Admin\""@,
    })
}

/// The middle of the user object: the two name fields.
pub open spec fn user_json_names(u: User) -> Seq<char> {
    ",\"username\":"@ + json_string(u.username@) + ",\"handle\":"@ + json_string(u.handle@)
}

/// The close of the user object: contact reference and banned flag.
pub open spec fn user_json_close(u: User) -> Seq<char> {
    ",\"provider_site\":"@ + (match u.provider_site {
        Option::Some(p) => json_string(p@),
        Option::None => "null"@,
    }) + ",\"banned\":"@ + bool_json(u.banned) + "}"@
}

/// The JSON object describing one user, fields in declaration order.
pub open spec fn user_json(u: User) -> Seq<char> {
    user_json_head(u) + user_json_names(u) + user_json_close(u)
}

fn append_user_json_head(out: &mut String, u: &User)
    ensures
        final(out)@ == old(out)@ + user_json_head(*u),
{
    out.append("{\"user_type\":");
    match u.user_type {
        UserMode::User => out.append("\"User\""),
        UserMode::Bot => out.append("\"Bot\""),
    }
    out.append(",\"permission_level\":");
    match u.permission_level {
        UserPermissions::User => out.append("\"User\""),
        UserPermissions::Moderator => out.append("\"Moderator\""),
        UserPermissions::Admin => out.append("\"Admin\""),
    }
    proof {
        assert(out@ =~= old(out)@ + user_json_head(*u));
    }
}

fn append_user_json_names(out: &mut String, u: &User)
    ensures
        final(out)@ == old(out)@ + user_json_names(*u),
{
    out.append(",\"username\":");
    append_json_string(out, u.username.as_str());
    out.append(",\"handle\":");
    append_json_string(out, u.handle.as_str());
    proof {
        assert(out@ =~= old(out)@ + user_json_names(*u));
    }
}

fn append_user_json_close(out: &mut String, u: &User)
    ensures
        final(out)@ == old(out)@ + user_json_close(*u),
{
    out.append(",\"provider_site\":");
    match &u.provider_site {
        Option::Some(p) => append_json_string(out, p.as_str()),
        Option::None => out.append("null"),
    }
    out.append(",\"banned\":");
    if u.banned {
        out.append("true");
    } else {
        out.append("false");
    }
    out.append("}");
    proof {
        assert(out@ =~= old(out)@ + user_json_close(*u));
    }
}

/// Appends the JSON object describing one user.
pub fn append_user_json(out: &mut String, u: &User)
    ensures
        final(out)@ == old(out)@ + user_json(*u),
{
    append_user_json_head(out, u);
    append_user_json_names(out, u);
    append_user_json_close(out, u);
    proof {
        assert(out@ =~= old(out)@ + user_json(*u));
    }
}

/// The JSON text of one outbound frame: kind, content, then the sender, or
/// `null` for a frame that carries no sender.
pub open spec fn socket_message_json(m: SocketMessage) -> Seq<char> {
    "{\"message_type\":"@ + update_type_json(m.message_type) + ",\"content\":"@ + json_string(
        m.content@,
    ) + ",\"sender\":"@ + (match m.sender {
        Option::Some(u) => user_json(u),
        Option::None => "null"@,
    }) + "}"@
}

impl SocketMessage {
    /// Serializes this frame as the exact JSON text that goes on the wire.
    pub fn to_json(&self) -> (r: String)
        ensures
            r@ == socket_message_json(*self),
    {
        let mut out = String::new();
        out.append("{\"message_type\":");
        match self.message_type {
            UpdateType::MESSAGE => out.append("\"MESSAGE\""),
            UpdateType::SYSTEM => out.append("\"SYSTEM\""),
            UpdateType::ERROR => out.append("\"ERROR\""),
        }
        out.append(",\"content\":");
        append_json_string(&mut out, self.content.as_str());
        out.append(",\"sender\":");
        match &self.sender {
            Option::Some(u) => append_user_json(&mut out, u),
            Option::None => out.append("null"),
        }
        out.append("}");
        proof {
            assert(out@ =~= socket_message_json(*self));
        }
        out
    }
}

} // verus!
