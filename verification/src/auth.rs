//! Reading HTTP basic credentials out of request headers, and the rules for passwords.
use vstd::prelude::*;
use vstd::utf8::*;
use crate::text::{ascii_case_eq, split_once, is_first_index, lemma_first_index, eq_ignore_ascii_case, split_once_char};
use crate::codec::{sha256_digest, base64_decode, base64_encode, sha256, utf8_text};
use crate::encoding::{base64_decoding, base64_text, law_base64_round_trip};

verus! {

/// One request header: its name and its value.
#[derive(Debug, PartialEq, Eq)]
pub struct Header {
    pub field: String,
    pub value: String,
}

/// An account, as the user table knows it.
#[derive(Debug, PartialEq, Eq)]
pub struct User {
    pub id: u32,
    pub name: String,
}

/// The mathematical value of a [`User`].
pub struct UserView {
    pub id: u32,
    pub name: Seq<char>,
}

impl View for User {
    type V = UserView;

    open spec fn view(&self) -> UserView {
        UserView { id: self.id, name: self.name@ }
    }
}

/// The value of the first header whose name is `Authorization`, in any ASCII case.
pub open spec fn authorization_value(headers: Seq<Header>) -> Option<Seq<char>>
    decreases headers.len(),
{
    if headers.len() == 0 {
        None
    } else if ascii_case_eq(headers[0].field@, "Authorization"@) {
        Some(headers[0].value@)
    } else {
        authorization_value(headers.drop_first())
    }
}

/// The user name and password carried by an `Authorization` value: the text after the
/// first space is base64; its bytes must be UTF-8 text; that text is cut at its first `:`.
pub open spec fn credentials_in(value: Seq<char>) -> Option<(Seq<char>, Seq<char>)> {
    match split_once(value, ' ') {
        None => None,
        Some((_scheme, token)) => match base64_decoding(encode_utf8(token)) {
            None => None,
            Some(bytes) => if valid_utf8(bytes) {
                split_once(decode_utf8(bytes), ':')
            } else {
                None
            },
        },
    }
}

/// The credentials that a request with these headers presents.
pub open spec fn credentials_of(headers: Seq<Header>) -> Option<(Seq<char>, Seq<char>)> {
    match authorization_value(headers) {
        None => None,
        Some(value) => credentials_in(value),
    }
}

/// The value of the first `Authorization` header.
fn find_authorization(headers: &Vec<Header>) -> (res: Option<&String>)
    ensures
        match res {
            Some(v) => authorization_value(headers@) == Some(v@),
            None => authorization_value(headers@) is None,
        },
{
    let n = headers.len();
    let mut i: usize = 0;
    assert(headers@.skip(0) =~= headers@);
    while i < n
        invariant
            n == headers@.len(),
            i <= n,
            authorization_value(headers@) == authorization_value(headers@.skip(i as int)),
        decreases n - i,
    {
        let h = &headers[i];
        if eq_ignore_ascii_case(h.field.as_str(), "Authorization") {
            return Some(&h.value);
        }
        assert(headers@.skip(i as int).drop_first() =~= headers@.skip(i + 1));
        i = i + 1;
    }
    None
}

/// The user name and password of an `Authorization` value.
fn read_credentials(value: &str) -> (res: Option<(String, String)>)
    ensures
        match res {
            Some((u, p)) => credentials_in(value@) == Some((u@, p@)),
            None => credentials_in(value@) is None,
        },
{
    let token = match split_once_char(value, ' ') {
        Some((_scheme, token)) => token,
        None => return None,
    };
    let bytes = match base64_decode(token.as_str().as_bytes()) {
        Ok(bytes) => bytes,
        Err(_) => return None,
    };
    let text = match utf8_text(bytes.as_slice()) {
        Some(text) => text,
        None => return None,
    };
    proof {
        encode_utf8_decode_utf8(text@);
    }
    split_once_char(text.as_str(), ':')
}

/// The user name and password that the request's basic `Authorization` header carries,
/// or `None` when there is no such header or it cannot be read.
pub fn get_auth(headers: &Vec<Header>) -> (res: Option<(String, String)>)
    ensures
        match res {
            Some((u, p)) => credentials_of(headers@) == Some((u@, p@)),
            None => credentials_of(headers@) is None,
        },
{
    match find_authorization(headers) {
        Some(value) => read_credentials(value.as_str()),
        None => None,
    }
}

/// Credentials that a client sends as `scheme token`, where `token` is the base64 text of
/// the UTF-8 text `user:password`, are read back as that user name and password, provided
/// the scheme holds no space and the user name no colon.
pub proof fn law_basic_credentials_read_back(
    headers: Seq<Header>,
    scheme: Seq<char>,
    user: Seq<char>,
    password: Seq<char>,
)
    requires
        authorization_value(headers) == Some(
            scheme + seq![' '] + base64_text(encode_utf8(user + seq![':'] + password)),
        ),
        !scheme.contains(' '),
        !user.contains(':'),
    ensures
        credentials_of(headers) == Some((user, password)),
{
    let text = user + seq![':'] + password;
    let token = base64_text(encode_utf8(text));
    law_base64_round_trip(encode_utf8(text));
    let value = scheme + seq![' '] + token;
    assert(is_first_index(value, ' ', scheme.len() as int)) by {
        assert forall|j: int| 0 <= j < scheme.len() implies value[j] != ' ' by {
            assert(value[j] == scheme[j]);
        }
    }
    lemma_first_index(value, ' ', scheme.len() as int);
    assert(value.take(scheme.len() as int) =~= scheme);
    assert(value.skip(scheme.len() as int + 1) =~= token);
    encode_utf8_valid_utf8(text);
    encode_utf8_decode_utf8(text);
    assert(is_first_index(text, ':', user.len() as int)) by {
        assert forall|j: int| 0 <= j < user.len() implies text[j] != ':' by {
            assert(text[j] == user[j]);
        }
    }
    lemma_first_index(text, ':', user.len() as int);
    assert(text.take(user.len() as int) =~= user);
    assert(text.skip(user.len() as int + 1) =~= password);
}

/// The credentials are taken from the first header whose name is `Authorization` in any
/// ASCII case, whatever headers come before or after it; with no such header there are
/// none.
pub proof fn law_first_authorization_header(headers: Seq<Header>, k: int)
    ensures
        (forall|i: int| 0 <= i < headers.len() ==> !ascii_case_eq(#[trigger] headers[i].field@, "Authorization"@))
            ==> authorization_value(headers) is None,
        0 <= k < headers.len() && ascii_case_eq(headers[k].field@, "Authorization"@) && (forall|
            i: int,
        | 0 <= i < k ==> !ascii_case_eq(#[trigger] headers[i].field@, "Authorization"@))
            ==> authorization_value(headers) == Some(headers[k].value@),
    decreases headers.len(),
{
    if headers.len() > 0 {
        let rest = headers.drop_first();
        law_first_authorization_header(rest, k - 1);
        if forall|i: int| 0 <= i < headers.len() ==> !ascii_case_eq(#[trigger] headers[i].field@, "Authorization"@) {
            assert forall|i: int| 0 <= i < rest.len() implies !ascii_case_eq(#[trigger] rest[i].field@, "Authorization"@) by {
                assert(rest[i] == headers[i + 1]);
            }
            assert(!ascii_case_eq(headers[0].field@, "Authorization"@));
        }
        if 0 < k < headers.len() && ascii_case_eq(headers[k].field@, "Authorization"@) && (forall|i: int|
            0 <= i < k ==> !ascii_case_eq(#[trigger] headers[i].field@, "Authorization"@)) {
            assert(!ascii_case_eq(headers[0].field@, "Authorization"@));
            assert(rest[k - 1] == headers[k]);
            assert forall|i: int| 0 <= i < k - 1 implies !ascii_case_eq(#[trigger] rest[i].field@, "Authorization"@) by {
                assert(rest[i] == headers[i + 1]);
            }
        }
    }
}

/// The number of bytes in the UTF-8 form of `s`.
pub open spec fn byte_len(s: Seq<char>) -> nat {
    encode_utf8(s).len()
}

/// A new password is accepted when its UTF-8 form has at least 1 and fewer than 1000 bytes.
pub open spec fn password_acceptable(password: Seq<char>) -> bool {
    0 < byte_len(password) && byte_len(password) < 1000
}

/// Whether a new password meets the length rule.
pub fn is_acceptable_password(password: &str) -> (ok: bool)
    ensures
        ok == password_acceptable(password@),
        ok == (0 < encode_utf8(password@).len() && encode_utf8(password@).len() < 1000),
{
    let n = password.as_bytes().len();
    n > 0 && n < 1000
}

/// How a password is stored: the base64 text of the SHA-256 digest of its UTF-8 bytes.
pub open spec fn password_hash(password: Seq<char>) -> Seq<char> {
    base64_text(sha256_digest(encode_utf8(password)))
}

/// The stored form of a password.
pub fn hash_password(password: &str) -> (hash: String)
    ensures
        hash@ == password_hash(password@),
        hash@ == base64_text(sha256_digest(encode_utf8(password@))),
{
    let digest = sha256(password.as_bytes());
    base64_encode(digest.as_slice())
}

} // verus!
