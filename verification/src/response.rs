//! What the provider answers, and how a token pair is read out of it.
use vstd::prelude::*;
use crate::credentials::{opt_view, TemporaryToken};
use crate::text::{first_index, index_of, lemma_first_index_contains, str_equal};

verus! {

/// Why an answer of the provider was not accepted.
#[derive(Debug, PartialEq, Eq)]
pub enum ProviderError {
    /// The HTTP status, which is not one of success.
    Status(u16),
    /// The body holds no `oauth_token` field.
    MissingToken,
    /// The body holds no `oauth_token_secret` field.
    MissingTokenSecret,
}

/// An answer of the provider: the HTTP status and the body as text.
#[derive(Debug, PartialEq, Eq)]
pub struct ProviderResponse {
    pub status: u16,
    pub body: String,
}

/// The statuses that count as success.
pub open spec fn is_success(status: u16) -> bool {
    200 <= status < 300
}

/// The name and value pairs that an `application/x-www-form-urlencoded` text
/// decodes to, in the order in which they stand in it.
pub uninterp spec fn form_pairs(input: Seq<char>) -> Seq<(Seq<char>, Seq<char>)>;

/// A list of owned pairs as a sequence of pairs of character sequences.
pub open spec fn pairs_view(pairs: Seq<(String, String)>) -> Seq<(Seq<char>, Seq<char>)> {
    Seq::new(pairs.len(), |i: int| (pairs[i].0@, pairs[i].1@))
}

/// The value of the last pair named `name`, if there is one.
pub open spec fn last_value(pairs: Seq<(Seq<char>, Seq<char>)>, name: Seq<char>) -> Option<
    Seq<char>,
>
    decreases pairs.len(),
{
    if pairs.len() == 0 {
        None
    } else if pairs.last().0 == name {
        Some(pairs.last().1)
    } else {
        last_value(pairs.drop_last(), name)
    }
}

/// The token pair that a list of decoded fields yields: the token is looked
/// for first.
pub open spec fn token_of_pairs(pairs: Seq<(Seq<char>, Seq<char>)>) -> Result<
    (Seq<char>, Seq<char>),
    ProviderError,
> {
    match last_value(pairs, "oauth_token"@) {
        None => Err(ProviderError::MissingToken),
        Some(token) => match last_value(pairs, "oauth_token_secret"@) {
            None => Err(ProviderError::MissingTokenSecret),
            Some(secret) => Ok((token, secret)),
        },
    }
}

/// The token pair that a response to the request-token call yields: the
/// status is looked at before the body.
pub open spec fn token_of_response(status: u16, body: Seq<char>) -> Result<
    (Seq<char>, Seq<char>),
    ProviderError,
> {
    if !is_success(status) {
        Err(ProviderError::Status(status))
    } else {
        token_of_pairs(form_pairs(body))
    }
}

/// The body that a response to the access-token call yields.
pub open spec fn body_of_response(status: u16, body: Seq<char>) -> Result<
    Seq<char>,
    ProviderError,
> {
    if !is_success(status) {
        Err(ProviderError::Status(status))
    } else {
        Ok(body)
    }
}

/// Decodes a form-encoded text with `url::form_urlencoded::parse`, which
/// splits it at `&`, drops empty pieces, splits each piece at its first `=`,
/// turns `+` into a space and undoes percent-encoding. The pairs come back in
/// the order of the text; the contract gives that list its name and claims
/// nothing else of it.
#[verifier::external_body]
fn decode_form(input: &str) -> (pairs: Vec<(String, String)>)
    ensures
        pairs_view(pairs@) == form_pairs(input@),
{
    url::form_urlencoded::parse(input.as_bytes()).into_owned().collect()
}

/// Whether `status` is an HTTP status of success.
pub fn status_is_success(status: u16) -> (r: bool)
    ensures
        r == is_success(status),
{
    200 <= status && status < 300
}

/// Looks up the value of the last field named `name`.
pub fn field_value(pairs: &Vec<(String, String)>, name: &str) -> (r: Option<String>)
    ensures
        opt_view(r) == last_value(pairs_view(pairs@), name@),
{
    let ghost all = pairs_view(pairs@);
    let mut i: usize = pairs.len();
    proof {
        assert(all.subrange(0, i as int) =~= all);
    }
    while i > 0
        invariant
            i <= pairs.len(),
            all == pairs_view(pairs@),
            last_value(all, name@) == last_value(all.subrange(0, i as int), name@),
        decreases i,
    {
        i -= 1;
        proof {
            assert(all.subrange(0, i + 1).drop_last() =~= all.subrange(0, i as int));
            assert(all.subrange(0, i + 1).last() == all[i as int]);
        }
        if str_equal(pairs[i].0.as_str(), name) {
            return Some(pairs[i].1.clone());
        }
    }
    proof {
        assert(all.subrange(0, 0).len() == 0);
    }
    None
}

/// Reads the token pair out of a list of decoded fields.
pub fn token_from_pairs(pairs: &Vec<(String, String)>) -> (r: Result<
    TemporaryToken,
    ProviderError,
>)
    ensures
        match r {
            Ok(t) => token_of_pairs(pairs_view(pairs@)) == Ok::<
                (Seq<char>, Seq<char>),
                ProviderError,
            >((t.token@, t.secret@)),
            Err(e) => token_of_pairs(pairs_view(pairs@)) == Err::<
                (Seq<char>, Seq<char>),
                ProviderError,
            >(e),
        },
{
    match field_value(pairs, "oauth_token") {
        None => Err(ProviderError::MissingToken),
        Some(token) => match field_value(pairs, "oauth_token_secret") {
            None => Err(ProviderError::MissingTokenSecret),
            Some(secret) => Ok(TemporaryToken { token, secret }),
        },
    }
}

/// What stands after the first `c` in `s`. It is meant for an `s` that
/// holds `c`.
pub open spec fn after_first(s: Seq<char>, c: char) -> Seq<char>
    recommends
        s.contains(c),
{
    s.subrange(first_index(s, c) + 1, s.len() as int)
}

/// Hands back what follows the first `=` of a single `name=value` field, as
/// it stands there, or nothing where the field holds no `=`.
pub fn parse_token(token: &str) -> (value: Option<&str>)
    ensures
        match value {
            Some(v) => token@.contains('=') && v@ == after_first(token@, '='),
            None => !token@.contains('='),
        },
{
    let len = token.unicode_len();
    let at = index_of(token, '=');
    proof {
        lemma_first_index_contains(token@, '=');
    }
    if at < len {
        Some(token.substring_char(at + 1, len))
    } else {
        None
    }
}

/// Reads the token and its secret out of a form-encoded body. The two
/// fields are found by their names, wherever they stand in the body.
pub fn parse_tokens(request_token: &str) -> (r: Result<(String, String), ProviderError>)
    ensures
        match r {
            Ok(pair) => token_of_pairs(form_pairs(request_token@)) == Ok::<
                (Seq<char>, Seq<char>),
                ProviderError,
            >((pair.0@, pair.1@)),
            Err(e) => token_of_pairs(form_pairs(request_token@)) == Err::<
                (Seq<char>, Seq<char>),
                ProviderError,
            >(e),
        },
{
    let pairs = decode_form(request_token);
    match token_from_pairs(&pairs) {
        Ok(token) => Ok((token.token, token.secret)),
        Err(e) => Err(e),
    }
}

/// Reads the temporary token out of the provider's answer to the
/// request-token call.
pub fn request_token_from_response(response: &ProviderResponse) -> (r: Result<
    TemporaryToken,
    ProviderError,
>)
    ensures
        match r {
            Ok(t) => token_of_response(response.status, response.body@) == Ok::<
                (Seq<char>, Seq<char>),
                ProviderError,
            >((t.token@, t.secret@)),
            Err(e) => token_of_response(response.status, response.body@) == Err::<
                (Seq<char>, Seq<char>),
                ProviderError,
            >(e),
        },
{
    if !status_is_success(response.status) {
        Err(ProviderError::Status(response.status))
    } else {
        match parse_tokens(response.body.as_str()) {
            Ok(pair) => Ok(TemporaryToken { token: pair.0, secret: pair.1 }),
            Err(e) => Err(e),
        }
    }
}

/// Hands back the body of the provider's answer to the access-token call,
/// as it came.
pub fn access_token_from_response(response: &ProviderResponse) -> (r: Result<
    String,
    ProviderError,
>)
    ensures
        match r {
            Ok(body) => body_of_response(response.status, response.body@) == Ok::<
                Seq<char>,
                ProviderError,
            >(body@),
            Err(e) => body_of_response(response.status, response.body@) == Err::<
                Seq<char>,
                ProviderError,
            >(e),
        },
{
    if !status_is_success(response.status) {
        Err(ProviderError::Status(response.status))
    } else {
        Ok(response.body.clone())
    }
}

} // verus!
