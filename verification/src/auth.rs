//! Signing in: the login form's helpers, the decoding of the login answer,
//! and the claim of an OAuth token from the address the browser lands on.
use vstd::prelude::*;
use vstd::string::StringSliceAdditionalSpecFns;
use vstd::utf8::{encode_utf8, is_ascii_chars, is_ascii_chars_encode_utf8, is_continuation_byte};
use crate::url::{
    encode_byte, form_encoded, hex_upper, is_unreserved, lemma_form_encoded_ascii,
    lemma_form_encoded_concat,
};
use crate::json::{
    error_message, get, get_in, is_success, json_error_message, json_get, json_get_in, json_string,
    take_member,
    json_text, parse_json, parsed_json, success_flag, Json,
};
use crate::text::{blank, chars_of, first_index, find_char_from, lemma_first_index_range, lemma_first_index_scan, push_char, str_eq, trim, trim_str};

verus! {

pub const TOKEN_STORAGE_KEY: &'static str = "hesocial_token";
pub const LOGIN_API_PATH: &'static str = "/api/auth/login";
pub const GOOGLE_AUTH_PATH: &'static str = "/api/auth/google";
pub const LOGIN_FAILED_FALLBACK: &'static str = "登入失敗，請檢查您的電子郵件和密碼";
pub const GOOGLE_LOGIN_FAILED: &'static str = "Google 登入失敗，請稍後再試";
pub const OAUTH_LANDING_PATH: &'static str = "/complete-profile";
pub const OAUTH_LANDING_REDIRECT: &'static str = "/profile";

/// An accepted login: the session token and the user record as the API
/// sent it.
#[derive(Debug, PartialEq, Eq)]
pub struct LoginOk {
    pub token: String,
    pub user: Option<Json>,
}

/// What the app does when it starts: store the token that the address
/// carries, if any, and show the route.
#[derive(Debug, Clone, PartialEq, Eq)]
pub struct BootClaim {
    pub token: Option<String>,
    pub route: String,
}

pub fn password_input_type(show_password: bool) -> (s: &'static str)
    ensures
        s@ == (if show_password {
            "text"@
        } else {
            "password"@
        }),
{
    if show_password {
        "text"
    } else {
        "password"
    }
}

/// The `Authorization` header value for a token.
pub fn bearer_authorization(token: &str) -> (s: String)
    ensures
        s@ == "Bearer "@ + token@,
{
    let mut s = String::from_str("Bearer ");
    s.append(token);
    s
}

/// The message shown for a failed login: the API's error, trimmed, when
/// there is a non-blank one; the generic message otherwise.
pub open spec fn login_error_text(api_error: Option<Seq<char>>) -> Seq<char> {
    match api_error {
        Some(e) => if trim(e).len() > 0 {
            trim(e)
        } else {
            LOGIN_FAILED_FALLBACK@
        },
        None => LOGIN_FAILED_FALLBACK@,
    }
}

pub fn display_login_error(api_error: Option<&str>) -> (s: String)
    ensures
        s@ == login_error_text(
            match api_error {
                Some(e) => Some(e@),
                None => None,
            },
        ),
{
    match api_error {
        Some(e) => {
            let t = trim_str(e);
            if t.as_str().unicode_len() > 0 {
                t
            } else {
                String::from_str(LOGIN_FAILED_FALLBACK)
            }
        },
        None => String::from_str(LOGIN_FAILED_FALLBACK),
    }
}

/// The login answer: an unparsable body or an accepted one without a
/// non-blank `data.token` is the generic failure; a refused one carries the
/// API's error. An accepted one gives the trimmed token and `data.user`.
pub open spec fn login_result(parsed: Option<Json>) -> Result<(Seq<char>, Option<Json>), Seq<char>> {
    match parsed {
        None => Err(LOGIN_FAILED_FALLBACK@),
        Some(v) => if is_success(v) {
            match json_text(get_in(get(v, "data"@), "token"@)) {
                Some(t) => if trim(t).len() > 0 {
                    Ok((trim(t), get_in(get(v, "data"@), "user"@)))
                } else {
                    Err(LOGIN_FAILED_FALLBACK@)
                },
                None => Err(LOGIN_FAILED_FALLBACK@),
            }
        } else {
            Err(error_message(v, LOGIN_FAILED_FALLBACK@))
        },
    }
}

/// The login answer in the shape of `login_result`.
pub open spec fn login_view(r: Result<LoginOk, String>) -> Result<(Seq<char>, Option<Json>), Seq<char>> {
    match r {
        Ok(ok) => Ok((ok.token@, ok.user)),
        Err(e) => Err(e@),
    }
}

/// Decodes the login answer, given its body as parsed.
pub fn login_from_json(parsed: Option<Json>) -> (r: Result<LoginOk, String>)
    ensures
        login_view(r) == login_result(parsed),
{
    match parsed {
        None => Err(String::from_str(LOGIN_FAILED_FALLBACK)),
        Some(v) => {
            if success_flag(&v) {
                let token = json_string(json_get_in(json_get(&v, "data"), "token"));
                match token {
                    Some(t) => {
                        let t = trim_str(t.as_str());
                        if t.as_str().unicode_len() > 0 {
                            let user = match take_member(v, "data") {
                                Some(data) => take_member(data, "user"),
                                None => None,
                            };
                            Ok(LoginOk { token: t, user })
                        } else {
                            Err(String::from_str(LOGIN_FAILED_FALLBACK))
                        }
                    },
                    None => Err(String::from_str(LOGIN_FAILED_FALLBACK)),
                }
            } else {
                Err(json_error_message(&v, LOGIN_FAILED_FALLBACK))
            }
        },
    }
}

pub fn parse_login_response(body: &str) -> (r: Result<LoginOk, String>)
    ensures
        login_view(r) == login_result(parsed_json(body@)),
{
    login_from_json(parse_json(body))
}

/// The path of a path-and-query: what comes before the first `?`.
pub open spec fn path_of(p: Seq<char>) -> Seq<char> {
    match first_index(p, '?') {
        Some(i) => p.subrange(0, i),
        None => p,
    }
}

pub fn path_only(path_and_query: &str) -> (s: &str)
    ensures
        s@ == path_of(path_and_query@),
{
    let cs = chars_of(path_and_query);
    let i = find_char_from(&cs, 0, '?');
    assert(cs@.subrange(0, cs@.len() as int) =~= path_and_query@);
    path_and_query.substring_char(0, i)
}

/// The route shown after landing: the path, with the profile-completion
/// landing page sent on to the profile.
pub open spec fn landing_route(p: Seq<char>) -> Seq<char> {
    if path_of(p) == OAUTH_LANDING_PATH@ {
        OAUTH_LANDING_REDIRECT@
    } else {
        path_of(p)
    }
}

pub fn apply_complete_profile_redirect(path_and_query: &str) -> (s: String)
    ensures
        s@ == landing_route(path_and_query@),
{
    let path = path_only(path_and_query);
    if str_eq(path, OAUTH_LANDING_PATH) {
        String::from_str(OAUTH_LANDING_REDIRECT)
    } else {
        String::from_str(path)
    }
}

/// The value of an ASCII hexadecimal digit.
pub open spec fn hex_value(b: u8) -> Option<u8> {
    if 0x30 <= b <= 0x39 {
        Some((b - 0x30) as u8)
    } else if 0x61 <= b <= 0x66 {
        Some((b - 0x61 + 10) as u8)
    } else if 0x41 <= b <= 0x46 {
        Some((b - 0x41 + 10) as u8)
    } else {
        None
    }
}

/// `u8::from_str_radix` on the two bytes after a `%`: a `+` and one digit,
/// or two digits.
pub open spec fn hex_pair(a: u8, b: u8) -> Option<u8> {
    if a == 0x2B {
        hex_value(b)
    } else {
        match (hex_value(a), hex_value(b)) {
            (Some(x), Some(y)) => Some((x * 16 + y) as u8),
            _ => None,
        }
    }
}

/// Percent decoding of a byte string: `%` and two hex digits is the byte
/// they spell, `+` is a space, any other byte stands for the character of
/// the same number.
pub open spec fn pct_decode(bs: Seq<u8>) -> Seq<char>
    decreases bs.len(),
{
    if bs.len() == 0 {
        Seq::empty()
    } else if bs[0] == 0x25 && bs.len() > 2 {
        match hex_pair(bs[1], bs[2]) {
            Some(v) => seq![v as char] + pct_decode(bs.subrange(3, bs.len() as int)),
            None => seq!['%'] + pct_decode(bs.subrange(1, bs.len() as int)),
        }
    } else if bs[0] == 0x2B {
        seq![' '] + pct_decode(bs.subrange(1, bs.len() as int))
    } else {
        seq![bs[0] as char] + pct_decode(bs.subrange(1, bs.len() as int))
    }
}

/// The decoder reads each `%` and the two bytes after it as a piece of the
/// text, which must end on a character boundary; a byte string where it
/// would not is not decoded (the text slice would panic).
pub open spec fn pct_safe(bs: Seq<u8>) -> bool
    decreases bs.len(),
{
    if bs.len() == 0 {
        true
    } else if bs[0] == 0x25 && bs.len() > 2 {
        (bs.len() == 3 || !is_continuation_byte(bs[3])) && match hex_pair(bs[1], bs[2]) {
            Some(_) => pct_safe(bs.subrange(3, bs.len() as int)),
            None => pct_safe(bs.subrange(1, bs.len() as int)),
        }
    } else {
        pct_safe(bs.subrange(1, bs.len() as int))
    }
}

fn hex_value_exec(b: u8) -> (r: Option<u8>)
    ensures
        r == hex_value(b),
{
    if 0x30 <= b && b <= 0x39 {
        Some(b - 0x30)
    } else if 0x61 <= b && b <= 0x66 {
        Some(b - 0x61 + 10)
    } else if 0x41 <= b && b <= 0x46 {
        Some(b - 0x41 + 10)
    } else {
        None
    }
}

fn hex_pair_exec(a: u8, b: u8) -> (r: Option<u8>)
    ensures
        r == hex_pair(a, b),
{
    if a == 0x2B {
        hex_value_exec(b)
    } else {
        match (hex_value_exec(a), hex_value_exec(b)) {
            (Some(x), Some(y)) => Some(x * 16 + y),
            _ => None,
        }
    }
}

/// Percent decoding of the bytes `bs[lo..hi]`.
pub fn percent_decode_range(bs: &[u8], lo: usize, hi: usize) -> (s: String)
    requires
        lo <= hi <= bs@.len(),
        pct_safe(bs@.subrange(lo as int, hi as int)),
    ensures
        s@ == pct_decode(bs@.subrange(lo as int, hi as int)),
{
    let ghost whole = bs@.subrange(lo as int, hi as int);
    let mut out = String::new();
    let mut i = lo;
    while i < hi
        invariant
            lo <= i <= hi <= bs@.len(),
            whole == bs@.subrange(lo as int, hi as int),
            out@ + pct_decode(bs@.subrange(i as int, hi as int)) == pct_decode(whole),
            pct_safe(bs@.subrange(i as int, hi as int)),
        decreases hi - i,
    {
        let ghost rest = bs@.subrange(i as int, hi as int);
        let ghost before = out@;
        let b = bs[i];
        assert(rest[0] == b);
        if b == 0x25 && hi - i > 2 {
            assert(rest[1] == bs@[i + 1] && rest[2] == bs@[i + 2]);
            match hex_pair_exec(bs[i + 1], bs[i + 2]) {
                Some(v) => {
                    push_char(&mut out, v as char);
                    assert(rest.subrange(3, rest.len() as int) =~= bs@.subrange(i + 3, hi as int));
                    i = i + 3;
                },
                None => {
                    push_char(&mut out, '%');
                    assert(rest.subrange(1, rest.len() as int) =~= bs@.subrange(i + 1, hi as int));
                    i = i + 1;
                },
            }
        } else if b == 0x2B {
            push_char(&mut out, ' ');
            assert(rest.subrange(1, rest.len() as int) =~= bs@.subrange(i + 1, hi as int));
            i = i + 1;
        } else {
            push_char(&mut out, b as char);
            assert(rest.subrange(1, rest.len() as int) =~= bs@.subrange(i + 1, hi as int));
            i = i + 1;
        }
        assert(out@ + pct_decode(bs@.subrange(i as int, hi as int)) =~= before + pct_decode(rest));
    }
    assert(out@ + pct_decode(bs@.subrange(hi as int, hi as int)) =~= out@);
    out
}

/// Percent decoding of a text's UTF-8 bytes.
pub fn percent_decode(value: &str) -> (s: String)
    requires
        pct_safe(value.spec_bytes()),
    ensures
        s@ == pct_decode(value.spec_bytes()),
{
    let bs = value.as_bytes();
    assert(bs@.subrange(0, bs@.len() as int) =~= bs@);
    percent_decode_range(bs, 0, bs.len())
}

/// The bytes of the parameter name `token`.
pub open spec fn token_key() -> Seq<u8> {
    seq![0x74u8, 0x6Fu8, 0x6Bu8, 0x65u8, 0x6Eu8]
}

/// The value of a `key=value` pair when the key is `token` and the value
/// is not empty.
pub open spec fn pair_token(seg: Seq<u8>) -> Option<Seq<u8>> {
    match first_index(seg, 0x3Du8) {
        Some(j) => if 0 <= j < seg.len() && seg.subrange(0, j) == token_key() && j + 1 < seg.len() {
            Some(seg.subrange(j + 1, seg.len() as int))
        } else {
            None
        },
        None => None,
    }
}

/// The first pair of a query, in `&`-separated order, that carries a token.
pub open spec fn token_in(q: Seq<u8>) -> Option<Seq<u8>>
    decreases q.len(),
{
    match first_index(q, 0x26u8) {
        Some(i) => if 0 <= i < q.len() {
            match pair_token(q.subrange(0, i)) {
                Some(v) => Some(v),
                None => token_in(q.subrange(i + 1, q.len() as int)),
            }
        } else {
            None
        },
        None => pair_token(q),
    }
}

/// The query an address carries: what follows its first `?`; a bare path
/// (beginning with `/`) has none, and text without `?` that is not a path
/// is taken as a query itself.
pub open spec fn query_of(b: Seq<u8>) -> Option<Seq<u8>> {
    match first_index(b, 0x3Fu8) {
        Some(i) => Some(b.subrange(i + 1, b.len() as int)),
        None => if b.len() > 0 && b[0] == 0x2F {
            None
        } else {
            Some(b)
        },
    }
}

/// The raw bytes of the token an address carries, if any.
pub open spec fn oauth_token_bytes(b: Seq<u8>) -> Option<Seq<u8>> {
    match query_of(b) {
        Some(q) => token_in(q),
        None => None,
    }
}

/// The addresses whose token can be decoded without a slicing panic.
pub open spec fn token_decodable(b: Seq<u8>) -> bool {
    match oauth_token_bytes(b) {
        Some(v) => pct_safe(v),
        None => true,
    }
}

/// The decoded token an address carries.
pub open spec fn oauth_token_text(b: Seq<u8>) -> Option<Seq<char>> {
    match oauth_token_bytes(b) {
        Some(v) => Some(pct_decode(v)),
        None => None,
    }
}

fn find_byte(bs: &[u8], from: usize, hi: usize, x: u8) -> (r: usize)
    requires
        from <= hi <= bs@.len(),
    ensures
        from <= r <= hi,
        first_index(bs@.subrange(from as int, hi as int), x) == (if r < hi {
            Some(r - from)
        } else {
            None::<int>
        }),
{
    let mut i = from;
    while i < hi
        invariant
            from <= i <= hi <= bs@.len(),
            forall|k: int| from <= k < i ==> bs@[k] != x,
        decreases hi - i,
    {
        if bs[i] == x {
            proof {
                let sub = bs@.subrange(from as int, hi as int);
                lemma_first_index_scan(sub, x, i - from);
                assert(sub.subrange(i - from, sub.len() as int)[0] == x);
            }
            return i;
        }
        i = i + 1;
    }
    proof {
        let sub = bs@.subrange(from as int, hi as int);
        lemma_first_index_range(sub, x);
        match first_index(sub, x) {
            Some(j) => {
                assert(sub[j] == bs@[from + j]);
            },
            None => {},
        }
    }
    hi
}

/// The token of the pair `bs[lo..hi]`: the bounds of its value.
fn pair_value(bs: &[u8], lo: usize, hi: usize) -> (r: Option<(usize, usize)>)
    requires
        lo <= hi <= bs@.len(),
    ensures
        match r {
            Some((a, b)) => lo <= a <= b == hi && pair_token(bs@.subrange(lo as int, hi as int))
                == Some(bs@.subrange(a as int, b as int)),
            None => pair_token(bs@.subrange(lo as int, hi as int)).is_none(),
        },
{
    let ghost seg = bs@.subrange(lo as int, hi as int);
    let j = find_byte(bs, lo, hi, 0x3D);
    if j == hi {
        return None;
    }
    assert(seg.subrange(0, j - lo) =~= bs@.subrange(lo as int, j as int));
    if j - lo != 5 || bs[lo] != 0x74 || bs[lo + 1] != 0x6F || bs[lo + 2] != 0x6B || bs[lo + 3]
        != 0x65 || bs[lo + 4] != 0x6E {
        proof {
            if seg.subrange(0, j - lo) == token_key() {
                assert(seg.subrange(0, j - lo).len() == 5);
                assert(seg.subrange(0, j - lo)[0] == bs@[lo as int]);
                assert(seg.subrange(0, j - lo)[1] == bs@[lo + 1]);
                assert(seg.subrange(0, j - lo)[2] == bs@[lo + 2]);
                assert(seg.subrange(0, j - lo)[3] == bs@[lo + 3]);
                assert(seg.subrange(0, j - lo)[4] == bs@[lo + 4]);
            }
        }
        return None;
    }
    assert(seg.subrange(0, j - lo) =~= token_key());
    if j + 1 >= hi {
        return None;
    }
    assert(seg.subrange(j - lo + 1, seg.len() as int) =~= bs@.subrange(j + 1, hi as int));
    Some((j + 1, hi))
}

/// The bounds of the raw token in an address's bytes.
fn token_bounds(bs: &[u8]) -> (r: Option<(usize, usize)>)
    ensures
        match r {
            Some((a, b)) => a <= b <= bs@.len() && oauth_token_bytes(bs@) == Some(
                bs@.subrange(a as int, b as int),
            ),
            None => oauth_token_bytes(bs@).is_none(),
        },
{
    let n = bs.len();
    let q = find_byte(bs, 0, n, 0x3F);
    assert(bs@.subrange(0, n as int) =~= bs@);
    let mut start: usize = if q < n {
        q + 1
    } else {
        if n > 0 && bs[0] == 0x2F {
            return None;
        }
        0
    };
    assert(query_of(bs@) == Some(bs@.subrange(start as int, n as int)));
    loop
        invariant
            n == bs@.len(),
            start <= n,
            oauth_token_bytes(bs@) == token_in(bs@.subrange(start as int, n as int)),
        decreases n - start,
    {
        let ghost sub = bs@.subrange(start as int, n as int);
        let end = find_byte(bs, start, n, 0x26);
        if end < n {
            assert(sub.subrange(0, end - start) =~= bs@.subrange(start as int, end as int));
            match pair_value(bs, start, end) {
                Some(v) => {
                    return Some(v);
                },
                None => {},
            }
            assert(sub.subrange(end - start + 1, sub.len() as int) =~= bs@.subrange(
                end + 1,
                n as int,
            ));
            start = end + 1;
        } else {
            return pair_value(bs, start, n);
        }
    }
}

fn pct_safe_range(bs: &[u8], lo: usize, hi: usize) -> (b: bool)
    requires
        lo <= hi <= bs@.len(),
    ensures
        b == pct_safe(bs@.subrange(lo as int, hi as int)),
{
    let ghost whole = bs@.subrange(lo as int, hi as int);
    let mut i = lo;
    while i < hi
        invariant
            lo <= i <= hi <= bs@.len(),
            whole == bs@.subrange(lo as int, hi as int),
            pct_safe(whole) == pct_safe(bs@.subrange(i as int, hi as int)),
        decreases hi - i,
    {
        let ghost rest = bs@.subrange(i as int, hi as int);
        assert(rest[0] == bs@[i as int]);
        if bs[i] == 0x25 && hi - i > 2 {
            assert(rest[1] == bs@[i + 1] && rest[2] == bs@[i + 2]);
            if hi - i > 3 && 0x80 <= bs[i + 3] && bs[i + 3] <= 0xBF {
                assert(rest[3] == bs@[i + 3]);
                return false;
            }
            if hi - i > 3 {
                assert(rest[3] == bs@[i + 3]);
            }
            match hex_pair_exec(bs[i + 1], bs[i + 2]) {
                Some(_) => {
                    assert(rest.subrange(3, rest.len() as int) =~= bs@.subrange(i + 3, hi as int));
                    i = i + 3;
                },
                None => {
                    assert(rest.subrange(1, rest.len() as int) =~= bs@.subrange(i + 1, hi as int));
                    i = i + 1;
                },
            }
        } else {
            assert(rest.subrange(1, rest.len() as int) =~= bs@.subrange(i + 1, hi as int));
            i = i + 1;
        }
    }
    true
}

/// Whether the token an address carries, if any, can be decoded: the test
/// to make before `extract_oauth_token` and `boot_claim_oauth`.
pub fn oauth_token_decodable(input: &str) -> (b: bool)
    ensures
        b == token_decodable(input.spec_bytes()),
{
    let bs = input.as_bytes();
    match token_bounds(bs) {
        Some((a, b)) => pct_safe_range(bs, a, b),
        None => true,
    }
}

/// The OAuth token an address carries, percent-decoded.
pub fn extract_oauth_token(input: &str) -> (r: Option<String>)
    requires
        token_decodable(input.spec_bytes()),
    ensures
        crate::json::opt_view(r) == oauth_token_text(input.spec_bytes()),
{
    let bs = input.as_bytes();
    match token_bounds(bs) {
        Some((a, b)) => Some(percent_decode_range(bs, a, b)),
        None => None,
    }
}

/// What the app makes of the address it starts on: the token it carries,
/// and the route to show.
pub fn boot_claim_oauth(path_and_query: &str) -> (c: BootClaim)
    requires
        token_decodable(path_and_query.spec_bytes()),
    ensures
        crate::json::opt_view(c.token) == oauth_token_text(path_and_query.spec_bytes()),
        c.route@ == landing_route(path_and_query@),
{
    let token = extract_oauth_token(path_and_query);
    let route = apply_complete_profile_redirect(path_and_query);
    BootClaim { token, route }
}


/// The bytes of an ASCII text, one per character.
pub open spec fn ascii_bytes(e: Seq<char>) -> Seq<u8> {
    Seq::new(e.len(), |i: int| e[i] as u8)
}

proof fn lemma_hex_digit_value(d: u8)
    requires
        d < 16,
    ensures
        hex_value(hex_upper(d) as u8) == Some(d),
        hex_upper(d) as u8 != 0x2B,
{
}

/// Decoding the form encoding of any byte string gives one character per
/// byte, the character of the byte's number.
proof fn lemma_decode_form_encoded(b: Seq<u8>)
    ensures
        pct_safe(ascii_bytes(form_encoded(b))),
        pct_decode(ascii_bytes(form_encoded(b))) == Seq::new(b.len(), |i: int| b[i] as char),
    decreases b.len(),
{
    if b.len() == 0 {
        assert(ascii_bytes(form_encoded(b)) =~= Seq::<u8>::empty());
        assert(Seq::new(b.len(), |i: int| b[i] as char) =~= Seq::<char>::empty());
    } else {
        let b0 = b[0];
        let rest = b.drop_first();
        assert(seq![b0] + rest =~= b);
        lemma_form_encoded_concat(seq![b0], rest);
        assert(seq![b0].drop_last() =~= Seq::<u8>::empty());
        assert(seq![b0].last() == b0);
        assert(form_encoded(Seq::<u8>::empty()) =~= Seq::<char>::empty());
        assert(form_encoded(seq![b0]) =~= encode_byte(b0));
        lemma_decode_form_encoded(rest);
        lemma_form_encoded_ascii(rest);
        let x = ascii_bytes(encode_byte(b0));
        let r = ascii_bytes(form_encoded(rest));
        let bs = ascii_bytes(form_encoded(b));
        assert(bs =~= x + r);
        let tail = Seq::new(rest.len(), |i: int| rest[i] as char);
        assert(Seq::new(b.len(), |i: int| b[i] as char) =~= seq![b0 as char] + tail);
        if r.len() > 0 {
            let c = form_encoded(rest)[0];
            assert('\0' <= c <= '\u{7f}');
            assert(r[0] == c as u8);
            assert((c as u8) as u32 == c as u32);
        }
        if is_unreserved(b0) {
            assert(x =~= seq![b0]);
            assert(bs[0] == b0);
            assert(bs.subrange(1, bs.len() as int) =~= r);
        } else if b0 == 0x20 {
            assert(x =~= seq![0x2Bu8]);
            assert(bs[0] == 0x2B);
            assert(bs.subrange(1, bs.len() as int) =~= r);
        } else {
            let h = hex_upper(b0 / 16) as u8;
            let l = hex_upper(b0 % 16) as u8;
            assert(x =~= seq![0x25u8, h, l]);
            lemma_hex_digit_value(b0 / 16);
            lemma_hex_digit_value(b0 % 16);
            assert(bs[0] == 0x25 && bs[1] == h && bs[2] == l);
            assert(hex_pair(h, l) == Some(b0));
            assert(bs.subrange(3, bs.len() as int) =~= r);
            if bs.len() > 3 {
                assert(bs[3] == r[0]);
            }
        }
    }
}

/// Percent decoding undoes form encoding: the form-encoded UTF-8 bytes of
/// an ASCII text decode to the text itself.
pub proof fn lemma_percent_decode_undoes_form_encoding(s: Seq<char>)
    requires
        is_ascii_chars(s),
    ensures
        pct_safe(encode_utf8(form_encoded(encode_utf8(s)))),
        pct_decode(encode_utf8(form_encoded(encode_utf8(s)))) == s,
{
    let b = encode_utf8(s);
    is_ascii_chars_encode_utf8(s);
    let e = form_encoded(b);
    lemma_form_encoded_ascii(b);
    is_ascii_chars_encode_utf8(e);
    assert(encode_utf8(e) =~= ascii_bytes(e));
    lemma_decode_form_encoded(b);
    assert forall|i: int| 0 <= i < s.len() implies (b[i] as char) == s[i] by {
        assert(s[i] as u8 == b[i]);
        assert('\0' <= s[i] <= '\u{7f}');
    }
    assert(Seq::new(b.len(), |i: int| b[i] as char) =~= s);
}


/// The route shown after landing is a fixed point: landing on it again
/// shows the same route.
pub proof fn lemma_landing_route_idempotent(p: Seq<char>)
    ensures
        landing_route(landing_route(p)) == landing_route(p),
{
    reveal_strlit("/complete-profile");
    reveal_strlit("/profile");
    lemma_first_index_range(p, '?');
    let q = path_of(p);
    assert(!q.contains('?')) by {
        if q.contains('?') {
            let k = choose|k: int| 0 <= k < q.len() && q[k] == '?';
            assert(q[k] == p[k]);
        }
    }
    lemma_first_index_range(q, '?');
    if first_index(q, '?').is_some() {
        let k = first_index(q, '?').unwrap();
        assert(q[k] == '?');
    }
    let r = OAUTH_LANDING_REDIRECT@;
    lemma_first_index_range(r, '?');
    if first_index(r, '?').is_some() {
        let k = first_index(r, '?').unwrap();
        assert(r[k] == '?');
    }
    assert(r.len() != OAUTH_LANDING_PATH@.len());
}

} // verus!
