//! The signer: from what a request is to the `Authorization` header that
//! vouches for it.
use vstd::prelude::*;
use std::collections::BTreeSet;
use std::num::NonZeroU64;
use oauth1_request::{Builder, Credentials, HmacSha1};
use crate::credentials::{opt_view, ConsumerCredentials, TemporaryToken};
use crate::response::pairs_view;
use crate::text::{index_of, lemma_first_index_contains};

verus! {

/// Why a request was not signed.
#[derive(Debug, PartialEq, Eq)]
pub enum SigningError {
    /// The consumer key or the consumer secret is empty.
    EmptyCredentials,
    /// A verifier was given and no token to bind it to.
    VerifierWithoutToken,
    /// The target is no URL, or it carries a query.
    InvalidUrl,
    /// A timestamp of zero was asked for.
    ZeroTimestamp,
}

/// The HTTP methods that a request can be signed for.
#[derive(Debug, Clone, Copy, PartialEq, Eq)]
pub enum HttpMethod {
    Get,
    Post,
    Put,
    Delete,
}

impl HttpMethod {
    /// The method as it stands in the request line and in the signature
    /// base string: in upper case.
    pub open spec fn name_spec(self) -> Seq<char> {
        match self {
            HttpMethod::Get => "GET"@,
            HttpMethod::Post => "POST"@,
            HttpMethod::Put => "PUT"@,
            HttpMethod::Delete => "DELETE"@,
        }
    }

    /// The method's name, in upper case.
    pub fn name(self) -> (r: &'static str)
        ensures
            r@ == self.name_spec(),
    {
        match self {
            HttpMethod::Get => "GET",
            HttpMethod::Post => "POST",
            HttpMethod::Put => "PUT",
            HttpMethod::Delete => "DELETE",
        }
    }
}

/// All that goes into one signature.
#[derive(Debug, PartialEq, Eq)]
pub struct SigningRequest {
    /// Who signs.
    pub consumer: ConsumerCredentials,
    pub method: HttpMethod,
    /// Scheme, host and path of the target, without a query.
    pub url: String,
    /// The temporary token to bind, with its secret.
    pub token: Option<TemporaryToken>,
    /// The verifier that the provider handed to the callback.
    pub verifier: Option<String>,
    /// Where the provider is to send the user back.
    pub callback: Option<String>,
    /// Request parameters that are signed along with the protocol's own.
    /// They count as a set: order and repetition of a pair change nothing.
    pub parameters: Vec<(String, String)>,
}

/// The `Authorization` header of an OAuth 1.0a request signed with
/// HMAC-SHA1, for the given method, target, consumer credentials, token
/// credentials, verifier, callback, set of further signed parameters, nonce
/// and timestamp; `version` says whether it carries `oauth_version`.
pub uninterp spec fn authorization_header(
    method: Seq<char>,
    url: Seq<char>,
    consumer_key: Seq<char>,
    consumer_secret: Seq<char>,
    token: Option<(Seq<char>, Seq<char>)>,
    verifier: Option<Seq<char>>,
    callback: Option<Seq<char>>,
    parameters: Set<(Seq<char>, Seq<char>)>,
    version: bool,
    nonce: Seq<char>,
    timestamp: u64,
) -> Seq<char>;

/// Whether a text is accepted as a URL.
pub uninterp spec fn url_parses(url: Seq<char>) -> bool;

/// The view of an optional token pair.
pub open spec fn token_view(token: Option<TemporaryToken>) -> Option<(Seq<char>, Seq<char>)> {
    match token {
        Some(t) => Some((t.token@, t.secret@)),
        None => None,
    }
}

/// The view of an optional string slice.
pub open spec fn opt_str_view(s: Option<&str>) -> Option<Seq<char>> {
    match s {
        Some(s) => Some(s@),
        None => None,
    }
}

/// The view of an optional pair of string slices.
pub open spec fn opt_pair_view(p: Option<(&str, &str)>) -> Option<(Seq<char>, Seq<char>)> {
    match p {
        Some(p) => Some((p.0@, p.1@)),
        None => None,
    }
}

/// Why a request cannot be signed, if it cannot, by what was found of it:
/// the credentials are looked at first, then the verifier, then the target.
pub open spec fn refusal_given(
    consumer_key: Seq<char>,
    consumer_secret: Seq<char>,
    token_bound: bool,
    verifier_given: bool,
    target_has_query: bool,
    target_parses: bool,
) -> Option<SigningError> {
    if consumer_key.len() == 0 || consumer_secret.len() == 0 {
        Some(SigningError::EmptyCredentials)
    } else if verifier_given && !token_bound {
        Some(SigningError::VerifierWithoutToken)
    } else if target_has_query || !target_parses {
        Some(SigningError::InvalidUrl)
    } else {
        None
    }
}

/// Why a request with these credentials, this target, and a token bound or
/// a verifier given as said, cannot be signed, if it cannot.
pub open spec fn refusal(
    consumer_key: Seq<char>,
    consumer_secret: Seq<char>,
    token_bound: bool,
    verifier_given: bool,
    url: Seq<char>,
) -> Option<SigningError> {
    refusal_given(
        consumer_key,
        consumer_secret,
        token_bound,
        verifier_given,
        url.contains('?'),
        url_parses(url),
    )
}

impl SigningRequest {
    /// The header that this request gets with the given nonce and timestamp.
    /// It always carries `oauth_version`.
    pub open spec fn header_at(&self, nonce: Seq<char>, timestamp: u64) -> Seq<char> {
        authorization_header(
            self.method.name_spec(),
            self.url@,
            self.consumer.key@,
            self.consumer.secret@,
            token_view(self.token),
            opt_view(self.verifier),
            opt_view(self.callback),
            pairs_view(self.parameters@).to_set(),
            true,
            nonce,
            timestamp,
        )
    }

    /// Why this request cannot be signed, if it cannot.
    pub open spec fn failure(&self) -> Option<SigningError> {
        refusal(
            self.consumer.key@,
            self.consumer.secret@,
            self.token.is_some(),
            self.verifier.is_some(),
            self.url@,
        )
    }

    /// Why this request cannot be signed at the given timestamp, if it
    /// cannot: the timestamp is looked at last.
    pub open spec fn failure_at(&self, timestamp: u64) -> Option<SigningError> {
        if self.failure().is_some() {
            self.failure()
        } else if timestamp == 0 {
            Some(SigningError::ZeroTimestamp)
        } else {
            None
        }
    }

    /// What signing this request with a fixed nonce and timestamp yields.
    pub open spec fn outcome_at(&self, nonce: Seq<char>, timestamp: u64) -> Result<
        Seq<char>,
        SigningError,
    > {
        match self.failure_at(timestamp) {
            Some(e) => Err(e),
            None => Ok(self.header_at(nonce, timestamp)),
        }
    }

    /// Whether two requests sign the same thing: they agree in every field,
    /// their further parameters taken as a set.
    pub open spec fn same_as(&self, other: &SigningRequest) -> bool {
        &&& self.method == other.method
        &&& self.url@ == other.url@
        &&& self.consumer.key@ == other.consumer.key@
        &&& self.consumer.secret@ == other.consumer.secret@
        &&& token_view(self.token) == token_view(other.token)
        &&& opt_view(self.verifier) == opt_view(other.verifier)
        &&& opt_view(self.callback) == opt_view(other.callback)
        &&& pairs_view(self.parameters@).to_set() == pairs_view(other.parameters@).to_set()
    }
}

/// Calls `oauth1_request::Builder::build` on a builder made with
/// `Builder::new` for HMAC-SHA1 and set up with `token`, `callback`,
/// `verifier`, `version`, `nonce` and `timestamp`; the further
/// parameters go in as a `BTreeSet` of pairs. With a nonce and a timestamp
/// given, the contract names the header that comes back. With none given the
/// builder draws nine random bytes for the nonce and reads the clock, and
/// then signs as it does with given values: the contract claims that the
/// header is the one named for some nonce and some timestamp. A target with
/// a `?` in it is left out because the builder refuses it in a debug build.
#[verifier::external_body]
fn build_header(
    method: &str,
    url: &str,
    consumer_key: &str,
    consumer_secret: &str,
    token: Option<(&str, &str)>,
    verifier: Option<&str>,
    callback: Option<&str>,
    parameters: &Vec<(String, String)>,
    version: bool,
    nonce: Option<&str>,
    timestamp: Option<u64>,
) -> (header: String)
    requires
        !url@.contains('?'),
        nonce.is_some() == timestamp.is_some(),
        timestamp != Some(0u64),
    ensures
        match (nonce, timestamp) {
            (Some(n), Some(t)) => header@ == authorization_header(
                method@,
                url@,
                consumer_key@,
                consumer_secret@,
                opt_pair_view(token),
                opt_str_view(verifier),
                opt_str_view(callback),
                pairs_view(parameters@).to_set(),
                version,
                n@,
                t,
            ),
            _ => exists|n: Seq<char>, t: u64|
                header@ == #[trigger] authorization_header(
                    method@,
                    url@,
                    consumer_key@,
                    consumer_secret@,
                    opt_pair_view(token),
                    opt_str_view(verifier),
                    opt_str_view(callback),
                    pairs_view(parameters@).to_set(),
                    version,
                    n,
                    t,
                ),
        },
{
    let client = Credentials::new(consumer_key, consumer_secret);
    let mut builder = Builder::<_, &str, &str>::new(client, HmacSha1);
    builder.token(token.map(|t| Credentials::new(t.0, t.1)));
    builder.callback(callback).verifier(verifier).version(version);
    builder.nonce(nonce).timestamp(timestamp.and_then(NonZeroU64::new));
    let set: BTreeSet<(&str, &str)> = parameters.iter().map(|p| (p.0.as_str(), p.1.as_str())).collect();
    builder.build(method, url, &set)
}

/// Asks `url::Url::parse` whether it accepts the text. The contract gives
/// the answer its name and claims nothing else of it.
#[verifier::external_body]
fn parses_as_url(url: &str) -> (ok: bool)
    ensures
        ok == url_parses(url@),
{
    url::Url::parse(url).is_ok()
}

/// An optional string as an optional slice of it.
fn opt_str(s: &Option<String>) -> (r: Option<&str>)
    ensures
        opt_str_view(r) == opt_view(*s),
{
    match s {
        Some(s) => Some(s.as_str()),
        None => None,
    }
}

/// An optional token as an optional pair of slices.
fn opt_token(token: &Option<TemporaryToken>) -> (r: Option<(&str, &str)>)
    ensures
        opt_pair_view(r) == token_view(*token),
{
    match token {
        Some(t) => Some((t.token.as_str(), t.secret.as_str())),
        None => None,
    }
}

/// Whether `url` holds a `?`, and so a query.
pub fn has_query(url: &str) -> (r: bool)
    ensures
        r == url@.contains('?'),
{
    let at = index_of(url, '?');
    proof {
        lemma_first_index_contains(url@, '?');
    }
    at < url.unicode_len()
}

/// Decides whether a request can be signed, told whether its target parses
/// as a URL.
pub fn validate_given(request: &SigningRequest, target_parses: bool) -> (r: Result<
    (),
    SigningError,
>)
    ensures
        match r {
            Ok(_) => refusal_given(
                request.consumer.key@,
                request.consumer.secret@,
                request.token.is_some(),
                request.verifier.is_some(),
                request.url@.contains('?'),
                target_parses,
            ).is_none(),
            Err(e) => refusal_given(
                request.consumer.key@,
                request.consumer.secret@,
                request.token.is_some(),
                request.verifier.is_some(),
                request.url@.contains('?'),
                target_parses,
            ) == Some(e),
        },
{
    if request.consumer.key.as_str().is_empty() || request.consumer.secret.as_str().is_empty() {
        Err(SigningError::EmptyCredentials)
    } else if request.verifier.is_some() && request.token.is_none() {
        Err(SigningError::VerifierWithoutToken)
    } else if has_query(request.url.as_str()) || !target_parses {
        Err(SigningError::InvalidUrl)
    } else {
        Ok(())
    }
}

/// Tests what can be tested of a request before it is signed.
pub fn validate(request: &SigningRequest) -> (r: Result<(), SigningError>)
    ensures
        match r {
            Ok(_) => request.failure().is_none(),
            Err(e) => request.failure() == Some(e),
        },
{
    let target_parses = parses_as_url(request.url.as_str());
    validate_given(request, target_parses)
}

/// Signs `request` with a fresh random nonce and the current time. The
/// header is the one that `sign_at` gives for some nonce and timestamp;
/// which they are is not known before the call.
pub fn sign(request: &SigningRequest) -> (r: Result<String, SigningError>)
    ensures
        match r {
            Ok(header) => request.failure().is_none() && exists|nonce: Seq<char>, timestamp: u64|
                header@ == #[trigger] request.header_at(nonce, timestamp),
            Err(e) => request.failure() == Some(e),
        },
{
    match validate(request) {
        Err(e) => Err(e),
        Ok(_) => {
            let header = build_header(
                request.method.name(),
                request.url.as_str(),
                request.consumer.key.as_str(),
                request.consumer.secret.as_str(),
                opt_token(&request.token),
                opt_str(&request.verifier),
                opt_str(&request.callback),
                &request.parameters,
                true,
                None,
                None,
            );
            proof {
                let (n, t) = choose|n: Seq<char>, t: u64|
                    header@ == #[trigger] authorization_header(
                        request.method.name_spec(),
                        request.url@,
                        request.consumer.key@,
                        request.consumer.secret@,
                        token_view(request.token),
                        opt_view(request.verifier),
                        opt_view(request.callback),
                        pairs_view(request.parameters@).to_set(),
                        true,
                        n,
                        t,
                    );
                assert(header@ == request.header_at(n, t));
            }
            Ok(header)
        },
    }
}

/// Signs `request` with the given nonce and timestamp, so that the header
/// can be told beforehand and compared.
pub fn sign_at(request: &SigningRequest, nonce: &str, timestamp: u64) -> (r: Result<
    String,
    SigningError,
>)
    ensures
        match r {
            Ok(header) => request.outcome_at(nonce@, timestamp) == Ok::<Seq<char>, SigningError>(
                header@,
            ),
            Err(e) => request.outcome_at(nonce@, timestamp) == Err::<Seq<char>, SigningError>(e),
        },
{
    match validate(request) {
        Err(e) => Err(e),
        Ok(_) => {
            if timestamp == 0 {
                Err(SigningError::ZeroTimestamp)
            } else {
                Ok(
                    build_header(
                        request.method.name(),
                        request.url.as_str(),
                        request.consumer.key.as_str(),
                        request.consumer.secret.as_str(),
                        opt_token(&request.token),
                        opt_str(&request.verifier),
                        opt_str(&request.callback),
                        &request.parameters,
                        true,
                        Some(nonce),
                        Some(timestamp),
                    ),
                )
            }
        },
    }
}

/// With the nonce and the timestamp fixed, what is signed decides the
/// outcome: two requests that agree in every field, their further parameters
/// taken as a set, get the same header or the same refusal.
pub proof fn law_sign_at_is_reproducible(
    a: SigningRequest,
    b: SigningRequest,
    nonce: Seq<char>,
    timestamp: u64,
)
    requires
        a.same_as(&b),
    ensures
        a.outcome_at(nonce, timestamp) == b.outcome_at(nonce, timestamp),
{
}

} // verus!
