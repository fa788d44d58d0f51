//! The session/request builder: per-request authentication tokens and
//! endpoint URLs for a Subsonic-compatible server.

use vstd::prelude::*;
use vstd::string::StringExecFns;

use crate::Credentials;
use crate::text::push_char;

verus! {

/// What the MD5 digest of a text is. Relied on through `md5_digest` below;
/// the digest is a function of the text alone.
pub uninterp spec fn md5_of(text: Seq<char>) -> Seq<u8>;

/// Relies on `md5::compute`: the MD5 digest of the UTF-8 bytes of the text,
/// always 16 bytes, a function of the text alone.
#[verifier::external_body]
fn md5_digest(text: &str) -> (r: Vec<u8>)
    ensures
        r@ == md5_of(text@),
        r@.len() == 16,
{
    md5::compute(text.as_bytes()).0.to_vec()
}

/// The lower-case hex character for a value below 16.
pub open spec fn hex_digit(n: u8) -> char {
    if n == 0 {
        '0'
    } else if n == 1 {
        '1'
    } else if n == 2 {
        '2'
    } else if n == 3 {
        '3'
    } else if n == 4 {
        '4'
    } else if n == 5 {
        '5'
    } else if n == 6 {
        '6'
    } else if n == 7 {
        '7'
    } else if n == 8 {
        '8'
    } else if n == 9 {
        '9'
    } else if n == 10 {
        'a'
    } else if n == 11 {
        'b'
    } else if n == 12 {
        'c'
    } else if n == 13 {
        'd'
    } else if n == 14 {
        'e'
    } else {
        'f'
    }
}

/// Lower-case hex encoding: two characters for each byte, in order.
pub open spec fn hex_of(bytes: Seq<u8>) -> Seq<char>
    decreases bytes.len(),
{
    if bytes.len() == 0 {
        Seq::empty()
    } else {
        seq![hex_digit(bytes.first() / 16), hex_digit(bytes.first() % 16)] + hex_of(
            bytes.drop_first(),
        )
    }
}

fn hex_digit_char(n: u8) -> (c: char)
    requires
        n < 16,
    ensures
        c == hex_digit(n),
{
    if n == 0 {
        '0'
    } else if n == 1 {
        '1'
    } else if n == 2 {
        '2'
    } else if n == 3 {
        '3'
    } else if n == 4 {
        '4'
    } else if n == 5 {
        '5'
    } else if n == 6 {
        '6'
    } else if n == 7 {
        '7'
    } else if n == 8 {
        '8'
    } else if n == 9 {
        '9'
    } else if n == 10 {
        'a'
    } else if n == 11 {
        'b'
    } else if n == 12 {
        'c'
    } else if n == 13 {
        'd'
    } else if n == 14 {
        'e'
    } else {
        'f'
    }
}

fn to_hex(bytes: &Vec<u8>) -> (s: String)
    ensures
        s@ == hex_of(bytes@),
{
    let mut s = String::new();
    let n = bytes.len();
    proof {
        assert(bytes@.skip(0) == bytes@);
    }
    for i in 0..n
        invariant
            n == bytes@.len(),
            hex_of(bytes@) =~= s@ + hex_of(bytes@.skip(i as int)),
            s@.len() == 2 * i,
    {
        let b = bytes[i];
        push_char(&mut s, hex_digit_char(b / 16));
        push_char(&mut s, hex_digit_char(b % 16));
        proof {
            assert(bytes@.skip(i as int).first() == bytes@[i as int]);
            assert(bytes@.skip(i as int).drop_first() == bytes@.skip(i + 1));
        }
    }
    s
}

/// The per-request token: lower-case hex of `md5(password ++ salt)`, as the
/// protocol's pre-authentication scheme mandates.
pub open spec fn token_of(password: Seq<char>, salt: Seq<char>) -> Seq<char> {
    hex_of(md5_of(password + salt))
}

/// The authentication query fragment, leading `?` included: user, token,
/// salt, protocol version, client name, and response format, in that order.
pub open spec fn auth_query_of(username: Seq<char>, password: Seq<char>, salt: Seq<char>) -> Seq<
    char,
> {
    "?u="@ + username + "&t="@ + token_of(password, salt) + "&s="@ + salt + "&v="@ + "1.16.1"@
        + "&c="@ + "subsonic_client"@ + "&f="@ + "json"@
}

/// Builds the authentication query fragment for the given credentials.
///
/// The result is pinned exactly: parameter names, order, and digest scheme
/// are a wire-compatibility contract with the server.
pub fn params(credentials: &Credentials) -> (r: String)
    ensures
        r@ == auth_query_of(credentials.username@, credentials.password@, credentials.salt@),
{
    let pre_t = credentials.password.clone().concat(credentials.salt.as_str());
    let digest = md5_digest(pre_t.as_str());
    let token = to_hex(&digest);
    let mut r = String::from_str("?u=");
    r.append(credentials.username.as_str());
    r.append("&t=");
    r.append(token.as_str());
    r.append("&s=");
    r.append(credentials.salt.as_str());
    r.append("&v=");
    r.append("1.16.1");
    r.append("&c=");
    r.append("subsonic_client");
    r.append("&f=");
    r.append("json");
    proof {
        assert(r@ =~= auth_query_of(
            credentials.username@,
            credentials.password@,
            credentials.salt@,
        ));
    }
    r
}

/// A full endpoint URL: base URL, `/rest/`, the endpoint, the authentication
/// query, then the caller's extra parameters.
pub open spec fn url_of(
    server_url: Seq<char>,
    username: Seq<char>,
    password: Seq<char>,
    salt: Seq<char>,
    endpoint: Seq<char>,
    extra_params: Seq<char>,
) -> Seq<char> {
    server_url + "/rest/"@ + endpoint + auth_query_of(username, password, salt) + extra_params
}

/// Builds the full URL for a request against `server_url`. `extra_params`
/// is taken as already formatted (for example `&id=42&size=1`).
pub fn url(server_url: &str, credentials: &Credentials, endpoint: &str, extra_params: &str) -> (r:
    String)
    ensures
        r@ == url_of(
            server_url@,
            credentials.username@,
            credentials.password@,
            credentials.salt@,
            endpoint@,
            extra_params@,
        ),
{
    let auth = params(credentials);
    let mut r = String::from_str(server_url);
    r.append("/rest/");
    r.append(endpoint);
    r.append(auth.as_str());
    r.append(extra_params);
    proof {
        assert(r@ =~= url_of(
            server_url@,
            credentials.username@,
            credentials.password@,
            credentials.salt@,
            endpoint@,
            extra_params@,
        ));
    }
    r
}

/// The character `c` occurs nowhere in `s`.
pub open spec fn free_of(s: Seq<char>, c: char) -> bool {
    forall|i: int| 0 <= i < s.len() ==> s[i] != c
}

/// The split of a query body on `&`: its parameters, in order.
pub open spec fn split_amp(s: Seq<char>) -> Seq<Seq<char>>
    decreases s.len(),
{
    if s.len() == 0 {
        seq![Seq::<char>::empty()]
    } else if s.first() == '&' {
        seq![Seq::<char>::empty()] + split_amp(s.drop_first())
    } else {
        let rest = split_amp(s.drop_first());
        seq![seq![s.first()] + rest.first()] + rest.drop_first()
    }
}

/// `prefix` is how `s` begins.
pub open spec fn has_prefix(s: Seq<char>, prefix: Seq<char>) -> bool {
    prefix.len() <= s.len() && s.take(prefix.len() as int) == prefix
}

/// How many of the given parameters begin with `prefix`.
pub open spec fn count_with_prefix(parts: Seq<Seq<char>>, prefix: Seq<char>) -> int
    decreases parts.len(),
{
    if parts.len() == 0 {
        0
    } else {
        (if has_prefix(parts.first(), prefix) {
            1int
        } else {
            0int
        }) + count_with_prefix(parts.drop_first(), prefix)
    }
}

proof fn lemma_free_of_drop_first(a: Seq<char>, c: char)
    requires
        a.len() > 0,
        free_of(a, c),
    ensures
        free_of(a.drop_first(), c),
{
    assert forall|i: int| 0 <= i < a.drop_first().len() implies a.drop_first()[i] != c by {
        assert(a.drop_first()[i] == a[i + 1]);
    }
}

proof fn lemma_free_of_concat(a: Seq<char>, b: Seq<char>, c: char)
    requires
        free_of(a, c),
        free_of(b, c),
    ensures
        free_of(a + b, c),
{
    assert forall|i: int| 0 <= i < (a + b).len() implies (a + b)[i] != c by {
        if i < a.len() {
            assert((a + b)[i] == a[i]);
        } else {
            assert((a + b)[i] == b[i - a.len()]);
        }
    }
}

/// A hex encoding never contains the parameter separator.
proof fn lemma_hex_free_of_amp(bytes: Seq<u8>)
    ensures
        free_of(hex_of(bytes), '&'),
    decreases bytes.len(),
{
    if bytes.len() == 0 {
    } else {
        lemma_hex_free_of_amp(bytes.drop_first());
        let two = seq![hex_digit(bytes.first() / 16), hex_digit(bytes.first() % 16)];
        assert(free_of(two, '&')) by {
            assert(two[0] == hex_digit(bytes.first() / 16));
            assert(two[1] == hex_digit(bytes.first() % 16));
        }
        lemma_free_of_concat(two, hex_of(bytes.drop_first()), '&');
    }
}

/// Splitting a body without separators yields just that body.
proof fn lemma_split_amp_single(a: Seq<char>)
    requires
        free_of(a, '&'),
    ensures
        split_amp(a) == seq![a],
    decreases a.len(),
{
    if a.len() == 0 {
        assert(a =~= Seq::<char>::empty());
    } else {
        assert(a.first() != '&');
        lemma_free_of_drop_first(a, '&');
        lemma_split_amp_single(a.drop_first());
        assert(seq![a.first()] + a.drop_first() =~= a);
        assert(split_amp(a) =~= seq![a]);
    }
}

/// Splitting `a & b` where `a` has no separator peels `a` off the front.
proof fn lemma_split_amp_sep(a: Seq<char>, b: Seq<char>)
    requires
        free_of(a, '&'),
    ensures
        split_amp(a + seq!['&'] + b) == seq![a] + split_amp(b),
    decreases a.len(),
{
    let s = a + seq!['&'] + b;
    if a.len() == 0 {
        assert(s.first() == '&');
        assert(s.drop_first() =~= b);
        assert(a =~= Seq::<char>::empty());
        assert(split_amp(s) =~= seq![a] + split_amp(b));
    } else {
        assert(s.first() == a.first());
        assert(s.first() != '&');
        assert(s.drop_first() =~= a.drop_first() + seq!['&'] + b);
        lemma_free_of_drop_first(a, '&');
        lemma_split_amp_sep(a.drop_first(), b);
        let rest = split_amp(s.drop_first());
        assert(rest == seq![a.drop_first()] + split_amp(b));
        assert(rest.first() == a.drop_first());
        assert(seq![s.first()] + rest.first() =~= a);
        assert(rest.drop_first() =~= split_amp(b));
        assert(split_amp(s) =~= seq![a] + split_amp(b));
    }
}

/// The authentication query is exactly six parameters joined by `&` behind
/// the leading `?`: user, token, salt, version, client, format, in order.
/// The user name and salt must not carry a separator of their own.
pub proof fn lemma_auth_query_split(username: Seq<char>, password: Seq<char>, salt: Seq<char>)
    requires
        free_of(username, '&'),
        free_of(salt, '&'),
    ensures
        split_amp(auth_query_of(username, password, salt).drop_first()) == seq![
            "u="@ + username,
            "t="@ + token_of(password, salt),
            "s="@ + salt,
            "v="@ + "1.16.1"@,
            "c="@ + "subsonic_client"@,
            "f="@ + "json"@,
        ],
{
    reveal_strlit("?u=");
    reveal_strlit("u=");
    reveal_strlit("&t=");
    reveal_strlit("t=");
    reveal_strlit("&s=");
    reveal_strlit("s=");
    reveal_strlit("&v=");
    reveal_strlit("v=");
    reveal_strlit("&c=");
    reveal_strlit("c=");
    reveal_strlit("&f=");
    reveal_strlit("f=");
    reveal_strlit("1.16.1");
    reveal_strlit("subsonic_client");
    reveal_strlit("json");
    let t = token_of(password, salt);
    let p0 = "u="@ + username;
    let p1 = "t="@ + t;
    let p2 = "s="@ + salt;
    let p3 = "v="@ + "1.16.1"@;
    let p4 = "c="@ + "subsonic_client"@;
    let p5 = "f="@ + "json"@;
    let tail4 = p4 + seq!['&'] + p5;
    let tail3 = p3 + seq!['&'] + tail4;
    let tail2 = p2 + seq!['&'] + tail3;
    let tail1 = p1 + seq!['&'] + tail2;
    let body = p0 + seq!['&'] + tail1;
    let q = auth_query_of(username, password, salt);
    assert(q.drop_first() =~= body);
    assert(free_of("u="@, '&')) by {
        assert("u="@[0] == 'u');
        assert("u="@[1] == '=');
    }
    assert(free_of("t="@, '&')) by {
        assert("t="@[0] == 't');
        assert("t="@[1] == '=');
    }
    assert(free_of("s="@, '&')) by {
        assert("s="@[0] == 's');
        assert("s="@[1] == '=');
    }
    assert(free_of(p3, '&')) by {
        assert(forall|i: int| 0 <= i < p3.len() ==> p3[i] != '&');
    }
    assert(free_of(p4, '&')) by {
        assert(forall|i: int| 0 <= i < p4.len() ==> p4[i] != '&');
    }
    assert(free_of(p5, '&')) by {
        assert(forall|i: int| 0 <= i < p5.len() ==> p5[i] != '&');
    }
    assert(free_of(t, '&')) by {
        lemma_hex_free_of_amp(md5_of(password + salt));
    }
    lemma_free_of_concat("u="@, username, '&');
    lemma_free_of_concat("t="@, t, '&');
    lemma_free_of_concat("s="@, salt, '&');
    lemma_split_amp_sep(p0, tail1);
    lemma_split_amp_sep(p1, tail2);
    lemma_split_amp_sep(p2, tail3);
    lemma_split_amp_sep(p3, tail4);
    lemma_split_amp_sep(p4, p5);
    lemma_split_amp_single(p5);
    assert(split_amp(body) =~= seq![p0, p1, p2, p3, p4, p5]);
}

/// For any credentials with a non-empty password and salt, the
/// authentication query carries exactly one `u=`, one `t=` and one `s=`
/// parameter (user name and salt free of the separator).
pub proof fn lemma_auth_query_unique_params(
    username: Seq<char>,
    password: Seq<char>,
    salt: Seq<char>,
)
    requires
        password.len() > 0,
        salt.len() > 0,
        free_of(username, '&'),
        free_of(salt, '&'),
    ensures
        count_with_prefix(split_amp(auth_query_of(username, password, salt).drop_first()), "u="@)
            == 1,
        count_with_prefix(split_amp(auth_query_of(username, password, salt).drop_first()), "t="@)
            == 1,
        count_with_prefix(split_amp(auth_query_of(username, password, salt).drop_first()), "s="@)
            == 1,
{
    lemma_auth_query_split(username, password, salt);
    reveal_with_fuel(count_with_prefix, 8);
    reveal_strlit("u=");
    reveal_strlit("t=");
    reveal_strlit("s=");
    reveal_strlit("v=");
    reveal_strlit("c=");
    reveal_strlit("f=");
    let t = token_of(password, salt);
    let p0 = "u="@ + username;
    let p1 = "t="@ + t;
    let p2 = "s="@ + salt;
    let p3 = "v="@ + "1.16.1"@;
    let p4 = "c="@ + "subsonic_client"@;
    let p5 = "f="@ + "json"@;
    let parts = seq![p0, p1, p2, p3, p4, p5];
    assert(parts.drop_first() =~= seq![p1, p2, p3, p4, p5]);
    assert(seq![p1, p2, p3, p4, p5].drop_first() =~= seq![p2, p3, p4, p5]);
    assert(seq![p2, p3, p4, p5].drop_first() =~= seq![p3, p4, p5]);
    assert(seq![p3, p4, p5].drop_first() =~= seq![p4, p5]);
    assert(seq![p4, p5].drop_first() =~= seq![p5]);
    assert(seq![p5].drop_first() =~= Seq::<Seq<char>>::empty());
    lemma_prefix_of_labelled(username, "u="@, 'u');
    lemma_prefix_of_labelled(t, "t="@, 't');
    lemma_prefix_of_labelled(salt, "s="@, 's');
    lemma_prefix_of_labelled("1.16.1"@, "v="@, 'v');
    lemma_prefix_of_labelled("subsonic_client"@, "c="@, 'c');
    lemma_prefix_of_labelled("json"@, "f="@, 'f');
}

/// A parameter `X=rest` has prefix `Y=` exactly when the labels agree.
proof fn lemma_prefix_of_labelled(rest: Seq<char>, label: Seq<char>, first: char)
    requires
        label.len() == 2,
        label[0] == first,
    ensures
        has_prefix(label + rest, label),
        forall|other: Seq<char>|
            other.len() == 2 && other[0] != first ==> !has_prefix(label + rest, other),
{
    let s = label + rest;
    assert(s.take(2) =~= label);
    assert forall|other: Seq<char>|
        other.len() == 2 && other[0] != first implies !has_prefix(s, other) by {
        assert(s[0] == first);
        if has_prefix(s, other) {
            assert(s.take(2) == other);
            assert(s.take(2)[0] == s[0]);
        }
    }
}

/// Building the query twice from the same credentials yields the identical
/// string: the token digest is reproducible.
pub proof fn lemma_auth_query_reproducible(
    username: Seq<char>,
    password: Seq<char>,
    salt: Seq<char>,
    q1: Seq<char>,
    q2: Seq<char>,
)
    requires
        q1 == auth_query_of(username, password, salt),
        q2 == auth_query_of(username, password, salt),
    ensures
        q1 == q2,
{
}

} // verus!
