//! Properties that relate the login reply, the session and the requests.

use crate::headers::{authenticated_headers, authorization_text, is_header_value_text};
use crate::login::{json_string_entries, lemma_lookup_absent, login_outcome, token_key, LoginError};
use crate::status::{decimal, ok_status, status_text, success_text};
use crate::url::endpoint_url_text;
use vstd::prelude::*;
use vstd::utf8::encode_utf8;

verus! {

/// A login reply that is the object `{"token": t}` yields the token `t`, and
/// a request made with it is authorized by `JWT t`, where that text is a
/// valid header value.
pub proof fn token_reply_authorizes_requests(body: Seq<u8>, t: Seq<char>)
    requires
        json_string_entries(body) == Some(seq![(token_key(), t)]),
        is_header_value_text(authorization_text(t)),
    ensures
        login_outcome(body) == Ok::<Seq<char>, LoginError>(t),
        authenticated_headers(t).contains_key("authorization"@),
        authenticated_headers(t)["authorization"@] == seq![encode_utf8("JWT "@ + t)],
{
    let entries = seq![(token_key(), t)];
    assert(entries[0].0 == token_key());
    reveal_strlit("authorization");
    reveal_strlit("content-type");
    assert("authorization"@ != "content-type"@) by {
        assert("authorization"@.len() != "content-type"@.len());
    }
}

/// A login reply that is a JSON object of strings without a `token` entry
/// opens no session.
pub proof fn reply_without_token_is_refused(
    body: Seq<u8>,
    entries: Seq<(Seq<char>, Seq<char>)>,
)
    requires
        json_string_entries(body) == Some(entries),
        forall|i: int| 0 <= i < entries.len() ==> (#[trigger] entries[i]).0 != token_key(),
    ensures
        login_outcome(body) == Err::<Seq<char>, LoginError>(LoginError::MissingToken),
{
    lemma_lookup_absent(entries, token_key());
}

/// A login reply that is not a JSON object of strings opens no session.
pub proof fn malformed_reply_is_refused(body: Seq<u8>)
    requires
        json_string_entries(body) is None,
    ensures
        login_outcome(body) == Err::<Seq<char>, LoginError>(LoginError::MalformedResponse),
{
}

/// The URL of an endpoint is the domain, the API path, the simulation id,
/// the device id and the suffix, joined by slashes, with nothing added.
pub proof fn endpoint_url_is_concatenation(
    domain: Seq<char>,
    simulation_id: Seq<char>,
    device_id: Seq<char>,
    suffix: Seq<char>,
)
    ensures
        endpoint_url_text(domain, simulation_id, device_id, suffix) == domain
            + "/external-connection/api/"@ + simulation_id + "/"@ + device_id + "/"@ + suffix,
{
}

/// A reply with status 200 is reported as a success; the report of any other
/// reply holds its status code in decimal.
pub proof fn status_report_names_status(status: u16)
    ensures
        status == ok_status() ==> status_text(status) == success_text(),
        status != ok_status() ==> exists|i: int|
            0 <= i <= status_text(status).len() - decimal(status as nat).len()
                && #[trigger] status_text(status).subrange(i, i + decimal(status as nat).len())
                == decimal(status as nat),
{
    if status != ok_status() {
        let text = status_text(status);
        let d = decimal(status as nat);
        let i = text.len() - d.len();
        assert(text.subrange(i, i + d.len()) =~= d);
    }
}

} // verus!
