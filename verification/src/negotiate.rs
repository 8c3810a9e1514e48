//! Content negotiation: classify an inbound request as JSON-API or HTML-form
//! style from its headers, and pick the matching session-credential transport.

use vstd::prelude::*;

verus! {

/// How a request wants to talk: structured JSON, or HTML forms and markup.
#[derive(Clone, Copy, Debug, PartialEq, Eq, Structural)]
pub enum RequestTypeEnum {
    Html,
    Json,
}

/// Does `hay` hold `needle` as a contiguous subsequence?
pub open spec fn contains_seq(hay: Seq<char>, needle: Seq<char>) -> bool {
    exists|k: int|
        0 <= k && k + needle.len() <= hay.len() && #[trigger] hay.subrange(k, k + needle.len())
            == needle
}

/// The classification of a request, from its `Accept` header and the partial
/// render marker, in the order the service checks them.
pub open spec fn spec_requested_type(
    accept: Option<Seq<char>>,
    partial_marker: Option<Seq<char>>,
) -> Option<RequestTypeEnum> {
    match accept {
        None => None,
        Some(a) => if contains_seq(a, "application/json"@) {
            Some(RequestTypeEnum::Json)
        } else if contains_seq(a, "custom/ws"@) {
            Some(RequestTypeEnum::Json)
        } else if contains_seq(a, "text/html"@) {
            Some(RequestTypeEnum::Html)
        } else if a == "*/*"@ {
            match partial_marker {
                Some(m) => if m == "true"@ {
                    Some(RequestTypeEnum::Html)
                } else {
                    None
                },
                None => None,
            }
        } else {
            None
        },
    }
}

/// Character-for-character string equality.
fn str_eq(a: &str, b: &str) -> (r: bool)
    ensures
        r == (a@ == b@),
{
    let a_len = a.unicode_len();
    let b_len = b.unicode_len();
    if a_len != b_len {
        return false;
    }
    let mut i: usize = 0;
    while i < a_len
        invariant
            a_len == a@.len(),
            b_len == b@.len(),
            a_len == b_len,
            i <= a_len,
            forall|j: int| 0 <= j < i ==> a@[j] == b@[j],
        decreases a_len - i,
    {
        if a.get_char(i) != b.get_char(i) {
            return false;
        }
        i += 1;
    }
    proof {
        assert(a@ =~= b@);
    }
    true
}

/// Substring search, character by character.
fn str_contains(hay: &str, needle: &str) -> (r: bool)
    ensures
        r == contains_seq(hay@, needle@),
{
    let hay_len = hay.unicode_len();
    let needle_len = needle.unicode_len();
    if needle_len > hay_len {
        return false;
    }
    if needle_len == 0 {
        proof {
            assert(hay@.subrange(0, 0 + needle@.len() as int) =~= needle@);
        }
        return true;
    }
    let mut k: usize = 0;
    while k <= hay_len - needle_len
        invariant
            needle_len == needle@.len(),
            hay_len == hay@.len(),
            1 <= needle_len <= hay_len,
            k <= hay_len - needle_len + 1,
            forall|k0: int|
                0 <= k0 < k ==> #[trigger] hay@.subrange(k0, k0 + needle@.len()) != needle@,
        decreases hay_len - k,
    {
        let mut j: usize = 0;
        let mut mismatch = false;
        while j < needle_len
            invariant
                needle_len == needle@.len(),
                hay_len == hay@.len(),
                k + needle_len <= hay_len,
                j <= needle_len,
                !mismatch ==> hay@.subrange(k as int, k + j) =~= needle@.subrange(0, j as int),
                mismatch ==> hay@.subrange(k as int, k + needle_len) != needle@,
            decreases needle_len - j,
        {
            let hc = hay.get_char(k + j);
            let nc = needle.get_char(j);
            if hc != nc {
                proof {
                    let full = hay@.subrange(k as int, k + needle_len);
                    assert(full[j as int] == hay@[k + j]);
                }
                mismatch = true;
                j = needle_len;
            } else {
                proof {
                    assert(hay@.subrange(k as int, k + j + 1) =~= hay@.subrange(
                        k as int,
                        k + j,
                    ).push(hay@[k + j]));
                    assert(needle@.subrange(0, j + 1) =~= needle@.subrange(0, j as int).push(
                        needle@[j as int],
                    ));
                }
                j += 1;
            }
        }
        if !mismatch {
            proof {
                assert(needle@.subrange(0, needle_len as int) =~= needle@);
                assert(hay@.subrange(k as int, k + needle@.len()) == needle@);
            }
            return true;
        }
        k += 1;
    }
    false
}

/// Classify a request from its `Accept` header and the truthy partial-render
/// marker header, exactly as `spec_requested_type` orders the checks.  `None`
/// means the request is unclassifiable and is rejected with
/// `UnsupportedMediaType` at the boundary.
pub fn get_requested_type(
    accept: Option<&String>,
    partial_marker: Option<&String>,
) -> (r: Option<RequestTypeEnum>)
    ensures
        r == spec_requested_type(
            match accept {
                Some(a) => Some(a@),
                None => None,
            },
            match partial_marker {
                Some(m) => Some(m@),
                None => None,
            },
        ),
{
    let accept = match accept {
        Some(a) => a,
        None => {
            return None;
        },
    };
    if str_contains(accept.as_str(), "application/json") {
        Some(RequestTypeEnum::Json)
    } else if str_contains(accept.as_str(), "custom/ws") {
        Some(RequestTypeEnum::Json)
    } else if str_contains(accept.as_str(), "text/html") {
        Some(RequestTypeEnum::Html)
    } else if str_eq(accept.as_str(), "*/*") {
        match partial_marker {
            Some(m) => if str_eq(m.as_str(), "true") {
                Some(RequestTypeEnum::Html)
            } else {
                None
            },
            None => None,
        }
    } else {
        None
    }
}

/// Which carrier a request's session credential arrives in: HTML clients use
/// the named cookie, JSON clients the fixed custom header.  There is no
/// fallback between the two.
pub fn credential_of_request<'a>(
    req_type: RequestTypeEnum,
    cookie_token: Option<&'a String>,
    header_token: Option<&'a String>,
) -> (r: Option<&'a String>)
    ensures
        r == match req_type {
            RequestTypeEnum::Html => cookie_token,
            RequestTypeEnum::Json => header_token,
        },
{
    match req_type {
        RequestTypeEnum::Html => cookie_token,
        RequestTypeEnum::Json => header_token,
    }
}

} // verus!
