//! Signed tokens: what they carry and how they are issued and validated.
//!
//! A token is a compact signed string. Its payload — the claims — is framed
//! here as exact JSON text by verified code, and read back by a verified
//! parser of the serializer's canonical form; only the signing and the
//! signature check are the outside crates' work, each behind a small trusted
//! wrapper. The token itself is a function of the claims text and the
//! secret alone, named `jwt_of`; the payload a valid token carries is a
//! function of the token alone, named `payload_of`.

use vstd::prelude::*;
use vstd::string::StrSliceExecFns;
use vstd::string::StringExecFns;

use crate::user::{User, UserMode, UserPermissions};
use crate::wire;

verus! {

/// How long a fresh token lives.
pub const JWT_LIFE_MINUTES: usize = 30;

/// The payload of a signed token: expiry, subject id, issue time (all in
/// seconds of the Unix epoch, as validation reads them), and the full
/// identity it vouches for.
#[derive(Debug)]
pub struct Claims {
    pub exp: usize,
    pub sub: usize,
    pub iat: usize,
    pub user: User,
}

/// Whether claims issued this way are still valid at `now`: only until the
/// expiry; the signature check is the other half of validity.
pub open spec fn spec_live_at(c: Claims, now: usize) -> bool {
    now < c.exp
}

/// The claims of a token issued at `now`: expiry one lifetime later, the
/// issue time itself, and the identity whole. The subject id is fixed at
/// zero: this identity model carries no numeric id.
pub open spec fn claims_at(user: User, now: usize) -> Claims
    recommends
        now + JWT_LIFE_MINUTES * 60 <= usize::MAX,
{
    Claims { exp: (now + JWT_LIFE_MINUTES * 60) as usize, sub: 0, iat: now, user }
}

/// The JSON text of the claims, fields in declaration order.
pub open spec fn claims_json(c: Claims) -> Seq<char> {
    "{\"exp\":"@ + wire::dec_str(c.exp as nat) + ",\"sub\":"@ + wire::dec_str(c.sub as nat)
        + ",\"iat\":"@ + wire::dec_str(c.iat as nat) + ",\"user\":"@ + wire::user_json(c.user)
        + "}"@
}

impl Claims {
    /// The claims of a token issued at `now` for this user: it expires the
    /// token lifetime later, records the issue time, and carries the
    /// identity whole.
    pub fn for_user(user: User, sub: usize, now: usize) -> (r: Claims)
        requires
            now + JWT_LIFE_MINUTES * 60 <= usize::MAX,
        ensures
            r.exp == now + JWT_LIFE_MINUTES * 60,
            r.iat == now,
            r.sub == sub,
            r.user == user,
    {
        Claims { exp: now + JWT_LIFE_MINUTES * 60, sub, iat: now, user }
    }

    /// Whether these claims are still within their lifetime at `now`.
    pub fn live_at(&self, now: usize) -> (r: bool)
        ensures
            r == spec_live_at(*self, now),
    {
        now < self.exp
    }

    /// Serializes the claims as the exact JSON text that gets signed.
    pub fn to_json(&self) -> (r: String)
        ensures
            r@ == claims_json(*self),
    {
        let mut out = String::new();
        out.append("{\"exp\":");
        wire::append_dec(&mut out, self.exp);
        out.append(",\"sub\":");
        wire::append_dec(&mut out, self.sub);
        out.append(",\"iat\":");
        wire::append_dec(&mut out, self.iat);
        out.append(",\"user\":");
        wire::append_user_json(&mut out, &self.user);
        out.append("}");
        proof {
            assert(out@ =~= claims_json(*self));
        }
        out
    }
}

/// The compact signed token for a claims text under a secret: the same text
/// and secret always give the same token, on every machine.
pub uninterp spec fn jwt_of(claims: Seq<char>, secret: Seq<char>) -> Seq<char>;

/// The payload a token carries, re-serialized in the serializer's canonical
/// form (compact, keys sorted): a function of the token alone.
pub uninterp spec fn payload_of(token: Seq<char>) -> Seq<char>;

/// Whether a token is structurally well formed and its HS512 signature
/// matches the secret: a function of the two texts alone, with no part for
/// the clock.
pub uninterp spec fn jwt_signature_ok(token: Seq<char>, secret: Seq<char>) -> bool;

/// Relies on std's SystemTime: the clock's current Unix second, negative
/// for a clock before the epoch, with both directions handled. Nothing is
/// assumed of the value.
#[verifier::external_body]
fn now_unix_seconds() -> i64 {
    match std::time::SystemTime::now().duration_since(std::time::UNIX_EPOCH) {
        Ok(fwd) => i64::try_from(fwd.as_secs()).unwrap_or(i64::MAX),
        Err(back) => 0i64.saturating_sub_unsigned(back.duration().as_secs()),
    }
}

/// Relies on serde_json::from_str and jsonwebtoken::encode with the HS512
/// algorithm: parses the claims text into a JSON value and signs it with
/// the secret. The compact token is a function of the text and the secret
/// alone. The parser accepts every text this library's claims writer
/// produces — one small two-level object of integer, string, boolean and
/// null fields, far inside the parser's depth limit — and the HMAC signing
/// path cannot fail, so on such a text the call succeeds.
#[verifier::external_body]
fn sign_claims_text(text: &str, secret: &str) -> (r: Option<String>)
    requires
        exists|c: Claims| text@ == claims_json(c),
    ensures
        r is Some,
        r matches Some(t) ==> t@ == jwt_of(text@, secret@),
{
    let value: serde_json::Value = match serde_json::from_str(text) {
        Ok(v) => v,
        Err(_) => return None,
    };
    let header = jsonwebtoken::Header::new(jsonwebtoken::Algorithm::HS512);
    let key = jsonwebtoken::EncodingKey::from_secret(secret.as_bytes());
    match jsonwebtoken::encode(&header, &value, &key) {
        Ok(token) => Some(token),
        Err(_) => None,
    }
}

/// Relies on jsonwebtoken::decode with the HS512 algorithm and
/// serde_json::to_string: yields the token's payload, re-serialized in the
/// canonical form, exactly when the token is signed with the secret and its
/// expiry has not passed (checked against the clock, with the default
/// leeway). The expiry check reads the system clock and would panic on a
/// clock before the Unix epoch; callers refuse such a clock first, and a
/// clock that regresses past the epoch between that refusal and this call
/// is not defended against.
#[verifier::external_body]
fn jwt_decode(token: &str, secret: &str) -> (r: Option<String>)
    ensures
        r is Some ==> jwt_signature_ok(token@, secret@),
        r matches Some(p) ==> p@ == payload_of(token@),
{
    let key = jsonwebtoken::DecodingKey::from_secret(secret.as_bytes());
    let validation = jsonwebtoken::Validation::new(jsonwebtoken::Algorithm::HS512);
    match jsonwebtoken::decode::<serde_json::Value>(token, &key, &validation) {
        Ok(data) => serde_json::to_string(&data.claims).ok(),
        Err(_) => None,
    }
}

/// Creates a signed token for a user; pass None as the creation time
/// outside of tests — a fixed creation time exists for simulating old
/// tokens and can cause security problems elsewhere. The subject id is
/// fixed at zero, as this identity model carries no numeric id. A given
/// creation time before the epoch, or too late for the lifetime to fit, is
/// refused with an error rather than a panic; for any other given creation
/// time the token is issued, and it is exactly the signature of the claims
/// text for that time.
pub fn create_token(user: User, creation_time: Option<i64>, secret: &str) -> (r: Result<
    String,
    (),
>)
    ensures
        (match creation_time {
            Option::Some(t) => {
                if 0 <= t && t + JWT_LIFE_MINUTES * 60 <= usize::MAX {
                    r matches Ok(tok) && tok@ == jwt_of(
                        claims_json(claims_at(user, t as usize)),
                        secret@,
                    )
                } else {
                    r is Err
                }
            },
            Option::None => r matches Ok(tok) ==> (exists|now: usize|
                now + JWT_LIFE_MINUTES * 60 <= usize::MAX && tok@ == jwt_of(
                    claims_json(claims_at(user, now)),
                    secret@,
                )),
        }),
{
    let now: i64 = match creation_time {
        Option::Some(time) => time,
        Option::None => now_unix_seconds(),
    };
    if now < 0 {
        return Err(());
    }
    let now = now as u64;
    if now > (usize::MAX - JWT_LIFE_MINUTES * 60) as u64 {
        return Err(());
    }
    let now = now as usize;
    let claims = Claims::for_user(user, 0, now);
    proof {
        assert(claims == claims_at(user, now));
    }
    let text = claims.to_json();
    match sign_claims_text(text.as_str(), secret) {
        Option::Some(token) => {
            proof {
                assert(token@ == jwt_of(claims_json(claims_at(user, now)), secret@));
            }
            Ok(token)
        },
        Option::None => Err(()),
    }
}

/// A decimal digit.
pub open spec fn is_dec_digit(c: char) -> bool {
    0x30 <= (c as u32) <= 0x39
}

/// The value of a lower-case hexadecimal digit, the only kind the canonical
/// serializer emits.
pub open spec fn hex_val(c: char) -> Option<int> {
    if is_dec_digit(c) {
        Option::Some((c as u32) - 0x30)
    } else if 0x61 <= (c as u32) <= 0x66 {
        Option::Some((c as u32) - 0x57)
    } else {
        Option::None
    }
}

/// The character a short escape stands for; the canonical serializer uses
/// no others.
pub open spec fn short_escape(e: char) -> Option<char> {
    if e == '"' {
        Option::Some('"')
    } else if e == '\\' {
        Option::Some('\\')
    } else if e == 'b' {
        Option::Some('\u{8}')
    } else if e == 't' {
        Option::Some('\t')
    } else if e == 'n' {
        Option::Some('\n')
    } else if e == 'f' {
        Option::Some('\u{c}')
    } else if e == 'r' {
        Option::Some('\r')
    } else {
        Option::None
    }
}

/// The position after `lit`, when `lit` stands at `i`.
pub open spec fn after_lit(s: Seq<char>, i: int, lit: Seq<char>) -> Option<int> {
    if 0 <= i && i + lit.len() <= s.len() && s.subrange(i, i + lit.len()) == lit {
        Option::Some(i + lit.len())
    } else {
        Option::None
    }
}

/// The first position at or after `i` that does not hold a digit.
pub open spec fn digits_end(s: Seq<char>, i: int) -> int
    decreases s.len() - i
        when 0 <= i <= s.len()
{
    if i < s.len() && is_dec_digit(s[i]) {
        digits_end(s, i + 1)
    } else {
        i
    }
}

/// The position after a run of at least one digit starting at `i`.
pub open spec fn after_digits(s: Seq<char>, i: int) -> Option<int> {
    if 0 <= i <= s.len() && digits_end(s, i) > i {
        Option::Some(digits_end(s, i))
    } else {
        Option::None
    }
}

/// The unescaped content, and the position after the closing quote, of a
/// string body beginning at `i` (its opening quote already behind):
/// exactly the canonical serializer's form — short escapes, `\u00..` with
/// two lower-case hex digits for the other control characters, no raw
/// control character.
pub open spec fn parse_string_body(s: Seq<char>, i: int) -> Option<(Seq<char>, int)>
    decreases s.len() - i
        when 0 <= i <= s.len()
{
    if i >= s.len() {
        Option::None
    } else if s[i] == '"' {
        Option::Some((Seq::empty(), i + 1))
    } else if s[i] == '\\' {
        if i + 1 < s.len() {
            if s[i + 1] == 'u' {
                if i + 5 < s.len() && s[i + 2] == '0' && s[i + 3] == '0' && hex_val(s[i + 4])
                    is Some && hex_val(s[i + 5]) is Some {
                    let v = 16 * hex_val(s[i + 4]).unwrap() + hex_val(s[i + 5]).unwrap();
                    match parse_string_body(s, i + 6) {
                        Option::Some(rest) => Option::Some(
                            (seq![((v as u8) as char)] + rest.0, rest.1),
                        ),
                        Option::None => Option::None,
                    }
                } else {
                    Option::None
                }
            } else {
                match short_escape(s[i + 1]) {
                    Option::Some(c) => match parse_string_body(s, i + 2) {
                        Option::Some(rest) => Option::Some((seq![c] + rest.0, rest.1)),
                        Option::None => Option::None,
                    },
                    Option::None => Option::None,
                }
            }
        } else {
            Option::None
        }
    } else if (s[i] as u32) < 0x20 {
        Option::None
    } else {
        match parse_string_body(s, i + 1) {
            Option::Some(rest) => Option::Some((seq![s[i]] + rest.0, rest.1)),
            Option::None => Option::None,
        }
    }
}

/// The content and end of a complete string token standing at `i`.
pub open spec fn parse_jstring(s: Seq<char>, i: int) -> Option<(Seq<char>, int)> {
    if 0 <= i < s.len() && s[i] == '"' {
        parse_string_body(s, i + 1)
    } else {
        Option::None
    }
}

/// The position after the claims object's opening and its three numeric
/// fields: `{"exp":digits,"iat":digits,"sub":digits,"user":`.
pub open spec fn after_claims_header(s: Seq<char>) -> Option<int> {
    match after_lit(s, 0, "{\"exp\":"@) {
        Option::Some(i) => match after_digits(s, i) {
            Option::Some(i) => match after_lit(s, i, ",\"iat\":"@) {
                Option::Some(i) => match after_digits(s, i) {
                    Option::Some(i) => match after_lit(s, i, ",\"sub\":"@) {
                        Option::Some(i) => match after_digits(s, i) {
                            Option::Some(i) => after_lit(s, i, ",\"user\":"@),
                            Option::None => Option::None,
                        },
                        Option::None => Option::None,
                    },
                    Option::None => Option::None,
                },
                Option::None => Option::None,
            },
            Option::None => Option::None,
        },
        Option::None => Option::None,
    }
}

/// The banned flag and the position after `{"banned":<bool>` at `i`.
pub open spec fn after_banned(s: Seq<char>, i: int) -> Option<(bool, int)> {
    match after_lit(s, i, "{\"banned\":"@) {
        Option::Some(j) => match after_lit(s, j, "true"@) {
            Option::Some(k) => Option::Some((true, k)),
            Option::None => match after_lit(s, j, "false"@) {
                Option::Some(k) => Option::Some((false, k)),
                Option::None => Option::None,
            },
        },
        Option::None => Option::None,
    }
}

/// The content and end of `<lit><string>` at `i`.
pub open spec fn after_text_field(s: Seq<char>, i: int, lit: Seq<char>) -> Option<
    (Seq<char>, int),
> {
    match after_lit(s, i, lit) {
        Option::Some(j) => parse_jstring(s, j),
        Option::None => Option::None,
    }
}

/// The contact reference and end of `,"provider_site":<string|null>` at `i`.
pub open spec fn after_provider(s: Seq<char>, i: int) -> Option<(Option<Seq<char>>, int)> {
    match after_lit(s, i, ",\"provider_site\":"@) {
        Option::Some(j) => match after_lit(s, j, "null"@) {
            Option::Some(k) => Option::Some((Option::None, k)),
            Option::None => match parse_jstring(s, j) {
                Option::Some(p) => Option::Some((Option::Some(p.0), p.1)),
                Option::None => Option::None,
            },
        },
        Option::None => Option::None,
    }
}

/// Which account kind a tag text names.
pub open spec fn mode_of_text(t: Seq<char>) -> Option<UserMode> {
    if t == "User"@ {
        Option::Some(UserMode::User)
    } else if t == "Bot"@ {
        Option::Some(UserMode::Bot)
    } else {
        Option::None
    }
}

/// Which permission tier a tag text names.
pub open spec fn tier_of_text(t: Seq<char>) -> Option<UserPermissions> {
    if t == "User"@ {
        Option::Some(UserPermissions::User)
    } else if t == "Moderator"@ {
        Option::Some(UserPermissions::Moderator)
    } else if t == "Admin"@ {
        Option::Some(UserPermissions::Admin)
    } else {
        Option::None
    }
}

/// Whether the canonical payload text `s` spells exactly the identity `u`:
/// the three numeric claims, then the user object with its six fields in
/// the serializer's sorted order, whose texts unescape to `u`'s values, and
/// nothing after the closing braces.
pub open spec fn payload_spells_user(s: Seq<char>, u: User) -> bool {
    match after_claims_header(s) {
        Option::Some(i) => match after_banned(s, i) {
            Option::Some((banned, i)) => match after_text_field(s, i, ",\"handle\":"@) {
                Option::Some((handle, i)) => match after_text_field(
                    s,
                    i,
                    ",\"permission_level\":"@,
                ) {
                    Option::Some((tier, i)) => match after_provider(s, i) {
                        Option::Some((provider, i)) => match after_text_field(
                            s,
                            i,
                            ",\"user_type\":"@,
                        ) {
                            Option::Some((mode, i)) => match after_text_field(
                                s,
                                i,
                                ",\"username\":"@,
                            ) {
                                Option::Some((username, i)) => {
                                    &&& after_lit(s, i, "}}"@) == Option::Some(s.len() as int)
                                    &&& u.banned == banned
                                    &&& u.handle@ == handle
                                    &&& tier_of_text(tier) == Option::Some(u.permission_level)
                                    &&& (match (u.provider_site, provider) {
                                        (Option::Some(p), Option::Some(q)) => p@ == q,
                                        (Option::None, Option::None) => true,
                                        _ => false,
                                    })
                                    &&& mode_of_text(mode) == Option::Some(u.user_type)
                                    &&& u.username@ == username
                                },
                                Option::None => false,
                            },
                            Option::None => false,
                        },
                        Option::None => false,
                    },
                    Option::None => false,
                },
                Option::None => false,
            },
            Option::None => false,
        },
        Option::None => false,
    }
}

/// Validates a token signed with the same secret as the one active: the
/// signature must match and the expiry must not have passed, and then the
/// payload must spell an identity in the canonical claims form, which is
/// returned whole. On any failure — malformed, badly signed, expired, or a
/// payload that spells no identity — the same undistinguished error comes
/// back. A clock before the epoch refuses every token, so the validator is
/// never reached with a time it cannot represent.
pub fn validate_token(token: &str, secret: &str) -> (r: Result<User, ()>)
    ensures
        r is Ok ==> jwt_signature_ok(token@, secret@),
        r matches Ok(u) ==> payload_spells_user(payload_of(token@), u),
{
    if now_unix_seconds() < 0 {
        return Err(());
    }
    let payload = match jwt_decode(token, secret) {
        Option::Some(p) => p,
        Option::None => {
            return Err(());
        },
    };
    match parse_payload_user(payload.as_str()) {
        Option::Some(user) => Ok(user),
        Option::None => Err(()),
    }
}

/// Reads the identity out of a canonical payload text: exactly the user
/// whose fields the text spells, or nothing when the text does not spell
/// one.
pub fn parse_payload_user(s: &str) -> (r: Option<User>)
    ensures
        (match r {
            Option::Some(u) => payload_spells_user(s@, u),
            Option::None => forall|u: User| !payload_spells_user(s@, u),
        }),
{
    let i = match expect_lit(s, 0, "{\"exp\":") {
        Option::Some(i) => i,
        Option::None => {
            return Option::None;
        },
    };
    let i = match skip_digits(s, i) {
        Option::Some(i) => i,
        Option::None => {
            return Option::None;
        },
    };
    let i = match expect_lit(s, i, ",\"iat\":") {
        Option::Some(i) => i,
        Option::None => {
            return Option::None;
        },
    };
    let i = match skip_digits(s, i) {
        Option::Some(i) => i,
        Option::None => {
            return Option::None;
        },
    };
    let i = match expect_lit(s, i, ",\"sub\":") {
        Option::Some(i) => i,
        Option::None => {
            return Option::None;
        },
    };
    let i = match skip_digits(s, i) {
        Option::Some(i) => i,
        Option::None => {
            return Option::None;
        },
    };
    let i = match expect_lit(s, i, ",\"user\":") {
        Option::Some(i) => i,
        Option::None => {
            return Option::None;
        },
    };
    let ghost header_end = i as int;
    proof {
        assert(after_claims_header(s@) == Option::Some(header_end));
    }
    let i = match expect_lit(s, i, "{\"banned\":") {
        Option::Some(i) => i,
        Option::None => {
            return Option::None;
        },
    };
    let (banned, i): (bool, usize) = match expect_lit(s, i, "true") {
        Option::Some(j) => (true, j),
        Option::None => match expect_lit(s, i, "false") {
            Option::Some(j) => (false, j),
            Option::None => {
                return Option::None;
            },
        },
    };
    proof {
        assert(after_banned(s@, header_end) == Option::Some((banned, i as int)));
    }
    let i = match expect_lit(s, i, ",\"handle\":") {
        Option::Some(i) => i,
        Option::None => {
            return Option::None;
        },
    };
    let (handle, i): (String, usize) = match parse_string_at(s, i) {
        Option::Some(p) => p,
        Option::None => {
            return Option::None;
        },
    };
    let i = match expect_lit(s, i, ",\"permission_level\":") {
        Option::Some(i) => i,
        Option::None => {
            return Option::None;
        },
    };
    let (tier_text, i): (String, usize) = match parse_string_at(s, i) {
        Option::Some(p) => p,
        Option::None => {
            return Option::None;
        },
    };
    let permission_level = if tier_text == "User".to_owned() {
        UserPermissions::User
    } else if tier_text == "Moderator".to_owned() {
        UserPermissions::Moderator
    } else if tier_text == "Admin".to_owned() {
        UserPermissions::Admin
    } else {
        return Option::None;
    };
    let i = match expect_lit(s, i, ",\"provider_site\":") {
        Option::Some(i) => i,
        Option::None => {
            return Option::None;
        },
    };
    let (provider_site, i): (Option<String>, usize) = match expect_lit(s, i, "null") {
        Option::Some(j) => (Option::None, j),
        Option::None => match parse_string_at(s, i) {
            Option::Some(p) => (Option::Some(p.0), p.1),
            Option::None => {
                return Option::None;
            },
        },
    };
    let i = match expect_lit(s, i, ",\"user_type\":") {
        Option::Some(i) => i,
        Option::None => {
            return Option::None;
        },
    };
    let (mode_text, i): (String, usize) = match parse_string_at(s, i) {
        Option::Some(p) => p,
        Option::None => {
            return Option::None;
        },
    };
    let user_type = if mode_text == "User".to_owned() {
        UserMode::User
    } else if mode_text == "Bot".to_owned() {
        UserMode::Bot
    } else {
        return Option::None;
    };
    let i = match expect_lit(s, i, ",\"username\":") {
        Option::Some(i) => i,
        Option::None => {
            return Option::None;
        },
    };
    let (username, i): (String, usize) = match parse_string_at(s, i) {
        Option::Some(p) => p,
        Option::None => {
            return Option::None;
        },
    };
    let end = match expect_lit(s, i, "}}") {
        Option::Some(j) => j,
        Option::None => {
            return Option::None;
        },
    };
    if end != s.unicode_len() {
        return Option::None;
    }
    Option::Some(User { user_type, permission_level, username, handle, provider_site, banned })
}

/// Matches the literal `lit` at position `i` of `s`, yielding the position
/// after it.
fn expect_lit(s: &str, i: usize, lit: &str) -> (r: Option<usize>)
    requires
        i <= s@.len(),
    ensures
        (match r {
            Option::Some(j) => after_lit(s@, i as int, lit@) == Option::Some(j as int) && i <= j
                <= s@.len(),
            Option::None => after_lit(s@, i as int, lit@) is None,
        }),
{
    let n = lit.unicode_len();
    let m = s.unicode_len();
    if n > m - i {
        return Option::None;
    }
    let mut j: usize = 0;
    while j < n
        invariant
            j <= n,
            i + n <= m,
            n == lit@.len(),
            m == s@.len(),
            s@.subrange(i as int, i + j) == lit@.subrange(0, j as int),
        decreases n - j,
    {
        if s.get_char(i + j) != lit.get_char(j) {
            proof {
                assert(s@.subrange(i as int, i + n)[j as int] == s@[i + j]);
                assert(after_lit(s@, i as int, lit@) is None);
            }
            return Option::None;
        }
        proof {
            assert(s@.subrange(i as int, i + j + 1) =~= s@.subrange(i as int, i + j).push(
                s@[i + j],
            ));
            assert(lit@.subrange(0, j + 1) =~= lit@.subrange(0, j as int).push(lit@[j as int]));
        }
        j = j + 1;
    }
    proof {
        assert(s@.subrange(i as int, i + n) =~= lit@);
    }
    Option::Some(i + n)
}

/// Skips a run of at least one digit starting at `i`.
fn skip_digits(s: &str, i: usize) -> (r: Option<usize>)
    requires
        i <= s@.len(),
    ensures
        (match r {
            Option::Some(j) => after_digits(s@, i as int) == Option::Some(j as int) && i < j
                <= s@.len(),
            Option::None => after_digits(s@, i as int) is None,
        }),
{
    let m = s.unicode_len();
    let mut j = i;
    while j < m
        invariant
            i <= j <= m,
            m == s@.len(),
            digits_end(s@, i as int) == digits_end(s@, j as int),
        decreases m - j,
    {
        let v = s.get_char(j) as u32;
        if !(0x30 <= v && v <= 0x39) {
            proof {
                assert(digits_end(s@, j as int) == j as int);
            }
            if j == i {
                return Option::None;
            }
            return Option::Some(j);
        }
        j = j + 1;
    }
    proof {
        assert(digits_end(s@, j as int) == j as int);
    }
    if j == i {
        Option::None
    } else {
        Option::Some(j)
    }
}

/// The value of a lower-case hexadecimal digit.
fn hex_digit_val(c: char) -> (r: Option<u32>)
    ensures
        (match r {
            Option::Some(v) => hex_val(c) == Option::Some(v as int) && v < 16,
            Option::None => hex_val(c) is None,
        }),
{
    let v = c as u32;
    if 0x30 <= v && v <= 0x39 {
        Option::Some(v - 0x30)
    } else if 0x61 <= v && v <= 0x66 {
        Option::Some(v - 0x57)
    } else {
        Option::None
    }
}

/// The character a short escape stands for.
fn short_escape_char(e: char) -> (r: Option<char>)
    ensures
        r == short_escape(e),
{
    if e == '"' {
        Option::Some('"')
    } else if e == '\\' {
        Option::Some('\\')
    } else if e == 'b' {
        Option::Some('\u{8}')
    } else if e == 't' {
        Option::Some('\t')
    } else if e == 'n' {
        Option::Some('\n')
    } else if e == 'f' {
        Option::Some('\u{c}')
    } else if e == 'r' {
        Option::Some('\r')
    } else {
        Option::None
    }
}

/// Reads the complete string token standing at `i`, unescaping its body.
fn parse_string_at(s: &str, i: usize) -> (r: Option<(String, usize)>)
    requires
        i <= s@.len(),
    ensures
        (match r {
            Option::Some(p) => parse_jstring(s@, i as int) matches Option::Some(q) && q.0 == p.0@
                && q.1 == p.1 as int && i < p.1 <= s@.len(),
            Option::None => parse_jstring(s@, i as int) is None,
        }),
{
    let m = s.unicode_len();
    if i >= m {
        return Option::None;
    }
    if s.get_char(i) != '"' {
        return Option::None;
    }
    let ghost start = i as int + 1;
    let mut acc = String::new();
    let mut j = i + 1;
    loop
        invariant
            start == i + 1,
            i + 1 <= j <= m,
            m == s@.len(),
            i < m,
            s@[i as int] == '"',
            (match parse_string_body(s@, start) {
                Option::Some(full) => parse_string_body(s@, j as int) matches Option::Some(rem)
                    && full.0 == acc@ + rem.0 && full.1 == rem.1,
                Option::None => parse_string_body(s@, j as int) is None,
            }),
        decreases m - j,
    {
        if j == m {
            proof {
                assert(parse_string_body(s@, j as int) is None);
                assert(parse_string_body(s@, start) is None);
                assert(parse_jstring(s@, i as int) is None);
            }
            return Option::None;
        }
        let c = s.get_char(j);
        if c == '"' {
            proof {
                assert(parse_string_body(s@, j as int) == Option::Some(
                    (Seq::<char>::empty(), j + 1),
                ));
                assert(acc@ + Seq::<char>::empty() =~= acc@);
            }
            return Option::Some((acc, j + 1));
        } else if c == '\\' {
            if m - j <= 1 {
                proof {
                    assert(parse_string_body(s@, j as int) is None);
                }
                return Option::None;
            }
            let e = s.get_char(j + 1);
            if e == 'u' {
                if m - j <= 5 {
                    proof {
                        assert(parse_string_body(s@, j as int) is None);
                    }
                    return Option::None;
                }
                if s.get_char(j + 2) != '0' || s.get_char(j + 3) != '0' {
                    proof {
                        assert(parse_string_body(s@, j as int) is None);
                    }
                    return Option::None;
                }
                let h1 = match hex_digit_val(s.get_char(j + 4)) {
                    Option::Some(v) => v,
                    Option::None => {
                        proof {
                            assert(parse_string_body(s@, j as int) is None);
                            assert(parse_string_body(s@, start) is None);
                            assert(parse_jstring(s@, i as int) is None);
                        }
                        return Option::None;
                    },
                };
                let h2 = match hex_digit_val(s.get_char(j + 5)) {
                    Option::Some(v) => v,
                    Option::None => {
                        proof {
                            assert(parse_string_body(s@, j as int) is None);
                            assert(parse_string_body(s@, start) is None);
                            assert(parse_jstring(s@, i as int) is None);
                        }
                        return Option::None;
                    },
                };
                let v = 16 * h1 + h2;
                let c2 = (v as u8) as char;
                let ghost prev = acc@;
                wire::push_char(&mut acc, c2);
                proof {
                    assert((prev + seq![c2]) =~= prev.push(c2));
                    lemma_body_step(s@, start, j as int, j + 6, c2, prev);
                }
                j = j + 6;
            } else {
                let c2 = match short_escape_char(e) {
                    Option::Some(v) => v,
                    Option::None => {
                        proof {
                            assert(parse_string_body(s@, j as int) is None);
                            assert(parse_string_body(s@, start) is None);
                            assert(parse_jstring(s@, i as int) is None);
                        }
                        return Option::None;
                    },
                };
                let ghost prev = acc@;
                wire::push_char(&mut acc, c2);
                proof {
                    assert((prev + seq![c2]) =~= prev.push(c2));
                    lemma_body_step(s@, start, j as int, j + 2, c2, prev);
                }
                j = j + 2;
            }
        } else {
            let v = c as u32;
            if v < 0x20 {
                proof {
                    assert(parse_string_body(s@, j as int) is None);
                }
                return Option::None;
            }
            let ghost prev = acc@;
            wire::push_char(&mut acc, c);
            proof {
                assert((prev + seq![c]) =~= prev.push(c));
                lemma_body_step(s@, start, j as int, j + 1, c, prev);
            }
            j = j + 1;
        }
    }
}

/// One step of the string-body scan: when the body at `j` opens with a
/// unit that unescapes to `c` and continues at `k`, accumulating `c` keeps
/// the accumulated-plus-remaining reading of the whole body.
proof fn lemma_body_step(s: Seq<char>, start: int, j: int, k: int, c: char, prev: Seq<char>)
    requires
        parse_string_body(s, j) == (match parse_string_body(s, k) {
            Option::Some(rest) => Option::Some((seq![c] + rest.0, rest.1)),
            Option::None => Option::None::<(Seq<char>, int)>,
        }),
        (match parse_string_body(s, start) {
            Option::Some(full) => parse_string_body(s, j) matches Option::Some(rem) && full.0
                == prev + rem.0 && full.1 == rem.1,
            Option::None => parse_string_body(s, j) is None,
        }),
    ensures
        (match parse_string_body(s, start) {
            Option::Some(full) => parse_string_body(s, k) matches Option::Some(rem) && full.0
                == prev.push(c) + rem.0 && full.1 == rem.1,
            Option::None => parse_string_body(s, k) is None,
        }),
{
    match parse_string_body(s, start) {
        Option::Some(full) => {
            let rest = parse_string_body(s, k).unwrap();
            assert(full.0 == prev + (seq![c] + rest.0));
            assert(prev + (seq![c] + rest.0) =~= prev.push(c) + rest.0);
        },
        Option::None => {
        },
    }
}

} // verus!
