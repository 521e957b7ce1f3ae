//! The three stages of a login: ask for a request token, send the user to
//! the provider, and trade the authorised token for an access token.
//!
//! Each stage that talks to the provider comes in two halves. The first
//! builds the signed request; the caller sends it and comes back with the
//! provider's answer, which the second half reads.
use vstd::prelude::*;
use crate::credentials::{ConsumerCredentials, TemporaryToken};
use crate::relay::{slot_after_take, slot_put, slot_secret, SecretRelay};
use crate::text::str_equal;
use crate::response::{
    access_token_from_response,
    body_of_response,
    pairs_view,
    request_token_from_response,
    token_of_response,
    ProviderError,
    ProviderResponse,
};
use crate::signer::{
    authorization_header,
    refusal,
    sign,
    HttpMethod,
    SigningError,
    SigningRequest,
};

verus! {

/// Why a step of the flow did not go through.
#[derive(Debug, PartialEq, Eq)]
pub enum FlowError {
    /// The relay holds no secret for the token of the callback.
    NotFound,
    /// The request could not be signed.
    Signing(SigningError),
    /// The provider's answer was not accepted.
    Provider(ProviderError),
}

/// What is fixed for one deployment: the provider's three endpoints, the
/// local callback, and the scope and expiry that are asked for.
#[derive(Debug, PartialEq, Eq)]
pub struct Deployment {
    pub request_token_url: String,
    pub authorize_url: String,
    pub access_token_url: String,
    pub callback_url: String,
    pub scope: String,
    pub expiry: String,
}

/// A request that is ready to be sent to the provider.
#[derive(Debug, PartialEq, Eq)]
pub struct SignedRequest {
    pub method: HttpMethod,
    pub url: String,
    /// The value of the `Authorization` header.
    pub authorization: String,
    /// The value of the `User-Agent` header.
    pub user_agent: String,
    /// The pairs of the query string, which the signature covers.
    pub query: Vec<(String, String)>,
}

/// Where one login attempt stands.
#[derive(Debug, PartialEq, Eq)]
pub enum FlowState {
    /// Nothing has been asked of the provider yet.
    Unstarted,
    /// The provider has handed out a request token.
    RequestTokenObtained(TemporaryToken),
    /// The provider has handed out the access token: the attempt is over.
    AccessTokenObtained(String),
}

/// A state of the flow by what it holds.
pub enum Stage {
    Unstarted,
    RequestTokenObtained(Seq<char>, Seq<char>),
    AccessTokenObtained(Seq<char>),
}

impl Stage {
    /// How far the attempt has come.
    pub open spec fn rank(self) -> nat {
        match self {
            Stage::Unstarted => 0,
            Stage::RequestTokenObtained(_, _) => 1,
            Stage::AccessTokenObtained(_) => 2,
        }
    }

    /// Whether the attempt is over.
    pub open spec fn is_terminal(self) -> bool {
        self is AccessTokenObtained
    }

    /// The stage that an answer of the provider leads to, or why the attempt
    /// is given up. It is meant for a stage that is not the last.
    pub open spec fn after(self, status: u16, body: Seq<char>) -> Result<Stage, ProviderError>
        recommends
            !self.is_terminal(),
    {
        match self {
            Stage::Unstarted => match token_of_response(status, body) {
                Ok(pair) => Ok(Stage::RequestTokenObtained(pair.0, pair.1)),
                Err(e) => Err(e),
            },
            _ => match body_of_response(status, body) {
                Ok(token) => Ok(Stage::AccessTokenObtained(token)),
                Err(e) => Err(e),
            },
        }
    }
}

impl View for FlowState {
    type V = Stage;

    open spec fn view(&self) -> Stage {
        match self {
            FlowState::Unstarted => Stage::Unstarted,
            FlowState::RequestTokenObtained(t) => Stage::RequestTokenObtained(t.token@, t.secret@),
            FlowState::AccessTokenObtained(body) => Stage::AccessTokenObtained(body@),
        }
    }
}

impl FlowState {
    /// Whether the attempt is over.
    pub fn is_terminal(&self) -> (r: bool)
        ensures
            r == self@.is_terminal(),
    {
        match self {
            FlowState::AccessTokenObtained(_) => true,
            _ => false,
        }
    }

    /// Moves the attempt on by one answer of the provider: to the request
    /// token from the start, to the access token from the request token. An
    /// answer that is not accepted ends the attempt, and the state is gone
    /// with it.
    pub fn advance(self, response: &ProviderResponse) -> (r: Result<FlowState, ProviderError>)
        requires
            !self@.is_terminal(),
        ensures
            match r {
                Ok(next) => self@.after(response.status, response.body@) == Ok::<
                    Stage,
                    ProviderError,
                >(next@),
                Err(e) => self@.after(response.status, response.body@) == Err::<
                    Stage,
                    ProviderError,
                >(e),
            },
    {
        match self {
            FlowState::Unstarted => match request_token_from_response(response) {
                Ok(token) => Ok(FlowState::RequestTokenObtained(token)),
                Err(e) => Err(e),
            },
            _ => match access_token_from_response(response) {
                Ok(body) => Ok(FlowState::AccessTokenObtained(body)),
                Err(e) => Err(e),
            },
        }
    }
}

/// Every step leads one stage further: no stage is entered twice.
pub proof fn law_flow_moves_forward(stage: Stage, status: u16, body: Seq<char>)
    requires
        !stage.is_terminal(),
        stage.after(status, body).is_ok(),
    ensures
        stage.after(status, body).unwrap().rank() == stage.rank() + 1,
{
}

/// The attempt is over after two accepted answers, whatever they hold.
pub proof fn law_flow_ends_after_two_steps(
    first_status: u16,
    first_body: Seq<char>,
    second_status: u16,
    second_body: Seq<char>,
)
    requires
        Stage::Unstarted.after(first_status, first_body).is_ok(),
        Stage::Unstarted.after(first_status, first_body).unwrap().after(
            second_status,
            second_body,
        ).is_ok(),
    ensures
        Stage::Unstarted.after(first_status, first_body).unwrap().after(
            second_status,
            second_body,
        ).unwrap() == Stage::AccessTokenObtained(second_body),
{
}

/// The `User-Agent` that every request to the provider carries.
pub open spec fn user_agent_spec() -> Seq<char> {
    "Cinnamon"@
}

/// The parameters that the request-token call signs and sends.
pub open spec fn stage_parameters(deployment: &Deployment) -> Seq<(Seq<char>, Seq<char>)> {
    seq![("scope"@, deployment.scope@), ("expiry"@, deployment.expiry@)]
}

/// The address that the user is sent to for `token`. The token and the
/// callback stand in it as they are, without any encoding.
pub open spec fn authorize_url_spec(deployment: &Deployment, token: Seq<char>) -> Seq<char> {
    deployment.authorize_url@ + "?oauth_token="@ + token + "&oauth_callback="@
        + deployment.callback_url@
}

/// Whether `signing` is what the request-token call signs: a POST to the
/// request-token endpoint with the callback and the stage's parameters, and
/// no token bound.
pub open spec fn is_request_token_signing(
    signing: &SigningRequest,
    deployment: &Deployment,
    consumer: &ConsumerCredentials,
) -> bool {
    &&& signing.consumer.key@ == consumer.key@
    &&& signing.consumer.secret@ == consumer.secret@
    &&& signing.method == HttpMethod::Post
    &&& signing.url@ == deployment.request_token_url@
    &&& signing.token.is_none()
    &&& signing.verifier.is_none()
    &&& signing.callback.is_some()
    &&& signing.callback.unwrap()@ == deployment.callback_url@
    &&& pairs_view(signing.parameters@) == stage_parameters(deployment)
}

/// Whether `signing` is what the access-token call signs: a POST to the
/// access-token endpoint with the token, its secret and the verifier bound,
/// and nothing else.
pub open spec fn is_access_token_signing(
    signing: &SigningRequest,
    deployment: &Deployment,
    consumer: &ConsumerCredentials,
    token: Seq<char>,
    secret: Seq<char>,
    verifier: Seq<char>,
) -> bool {
    &&& signing.consumer.key@ == consumer.key@
    &&& signing.consumer.secret@ == consumer.secret@
    &&& signing.method == HttpMethod::Post
    &&& signing.url@ == deployment.access_token_url@
    &&& signing.token.is_some()
    &&& signing.token.unwrap().token@ == token
    &&& signing.token.unwrap().secret@ == secret
    &&& signing.verifier.is_some()
    &&& signing.verifier.unwrap()@ == verifier
    &&& signing.callback.is_none()
    &&& signing.parameters@.len() == 0
}

/// The header of the request-token call for a given nonce and timestamp.
pub open spec fn request_token_header(
    deployment: &Deployment,
    consumer: &ConsumerCredentials,
    nonce: Seq<char>,
    timestamp: u64,
) -> Seq<char> {
    authorization_header(
        "POST"@,
        deployment.request_token_url@,
        consumer.key@,
        consumer.secret@,
        None,
        None,
        Some(deployment.callback_url@),
        stage_parameters(deployment).to_set(),
        true,
        nonce,
        timestamp,
    )
}

/// Why the request-token call cannot be signed, if it cannot.
pub open spec fn request_token_refusal(
    deployment: &Deployment,
    consumer: &ConsumerCredentials,
) -> Option<SigningError> {
    refusal(consumer.key@, consumer.secret@, false, false, deployment.request_token_url@)
}

/// The header of the access-token call for a given nonce and timestamp,
/// signed with the secret of the temporary token.
pub open spec fn access_token_header(
    deployment: &Deployment,
    consumer: &ConsumerCredentials,
    token: Seq<char>,
    secret: Seq<char>,
    verifier: Seq<char>,
    nonce: Seq<char>,
    timestamp: u64,
) -> Seq<char> {
    authorization_header(
        "POST"@,
        deployment.access_token_url@,
        consumer.key@,
        consumer.secret@,
        Some((token, secret)),
        Some(verifier),
        None,
        Set::<(Seq<char>, Seq<char>)>::empty(),
        true,
        nonce,
        timestamp,
    )
}

/// Why the access-token call cannot be signed, if it cannot.
pub open spec fn access_token_refusal(
    deployment: &Deployment,
    consumer: &ConsumerCredentials,
) -> Option<SigningError> {
    refusal(consumer.key@, consumer.secret@, true, true, deployment.access_token_url@)
}

/// Whether `request` is the request-token call as it is sent: a POST to the
/// request-token endpoint that carries the stage's parameters and the header
/// for some nonce and timestamp.
pub open spec fn is_request_token_call(
    request: &SignedRequest,
    deployment: &Deployment,
    consumer: &ConsumerCredentials,
) -> bool {
    &&& request.method == HttpMethod::Post
    &&& request.url@ == deployment.request_token_url@
    &&& request.user_agent@ == user_agent_spec()
    &&& pairs_view(request.query@) == stage_parameters(deployment)
    &&& exists|nonce: Seq<char>, timestamp: u64|
        request.authorization@ == #[trigger] request_token_header(
            deployment,
            consumer,
            nonce,
            timestamp,
        )
}

/// Whether `request` is the access-token call as it is sent: a POST to the
/// access-token endpoint without a query, with the header that binds the
/// token, its secret and the verifier, for some nonce and timestamp.
pub open spec fn is_access_token_call(
    request: &SignedRequest,
    deployment: &Deployment,
    consumer: &ConsumerCredentials,
    token: Seq<char>,
    secret: Seq<char>,
    verifier: Seq<char>,
) -> bool {
    &&& request.method == HttpMethod::Post
    &&& request.url@ == deployment.access_token_url@
    &&& request.user_agent@ == user_agent_spec()
    &&& request.query@.len() == 0
    &&& exists|nonce: Seq<char>, timestamp: u64|
        request.authorization@ == #[trigger] access_token_header(
            deployment,
            consumer,
            token,
            secret,
            verifier,
            nonce,
            timestamp,
        )
}

/// The pairs of a list without the repeats: each pair once, where it first
/// stands.
pub open spec fn distinct_pairs(pairs: Seq<(Seq<char>, Seq<char>)>) -> Seq<(Seq<char>, Seq<char>)>
    decreases pairs.len(),
{
    if pairs.len() == 0 {
        pairs
    } else {
        let earlier = distinct_pairs(pairs.drop_last());
        if earlier.contains(pairs.last()) {
            earlier
        } else {
            earlier.push(pairs.last())
        }
    }
}

/// Whether `request` carries the signature of `signing` for some nonce and
/// timestamp, goes where `signing` says, and sends each signed parameter
/// once.
pub open spec fn carries_signature(request: &SignedRequest, signing: &SigningRequest) -> bool {
    &&& request.method == signing.method
    &&& request.url@ == signing.url@
    &&& request.user_agent@ == user_agent_spec()
    &&& pairs_view(request.query@) == distinct_pairs(pairs_view(signing.parameters@))
    &&& exists|nonce: Seq<char>, timestamp: u64|
        request.authorization@ == #[trigger] signing.header_at(nonce, timestamp)
}

impl Deployment {
    /// The deployment against the University of Warwick's sign-on service,
    /// with the callback on the local port 8000.
    pub fn warwick() -> (r: Self)
        ensures
            r.request_token_url@ == "https://websignon.warwick.ac.uk/oauth/requestToken"@,
            r.authorize_url@ == "https://websignon.warwick.ac.uk/oauth/authorise"@,
            r.access_token_url@ == "https://websignon.warwick.ac.uk/oauth/accessToken"@,
            r.callback_url@ == "http://localhost:8000/authorised"@,
            r.scope@ == "urn:websignon.warwick.ac.uk:sso:service"@,
            r.expiry@ == "forever"@,
    {
        Deployment {
            request_token_url: String::from_str(
                "https://websignon.warwick.ac.uk/oauth/requestToken",
            ),
            authorize_url: String::from_str("https://websignon.warwick.ac.uk/oauth/authorise"),
            access_token_url: String::from_str("https://websignon.warwick.ac.uk/oauth/accessToken"),
            callback_url: String::from_str("http://localhost:8000/authorised"),
            scope: String::from_str("urn:websignon.warwick.ac.uk:sso:service"),
            expiry: String::from_str("forever"),
        }
    }
}

/// What the request-token call signs.
pub fn request_token_signing(deployment: &Deployment, consumer: &ConsumerCredentials) -> (r:
    SigningRequest)
    ensures
        is_request_token_signing(&r, deployment, consumer),
{
    let mut parameters: Vec<(String, String)> = Vec::new();
    parameters.push((String::from_str("scope"), deployment.scope.clone()));
    parameters.push((String::from_str("expiry"), deployment.expiry.clone()));
    proof {
        assert(pairs_view(parameters@) =~= stage_parameters(deployment));
    }
    SigningRequest {
        consumer: consumer.clone(),
        method: HttpMethod::Post,
        url: deployment.request_token_url.clone(),
        token: None,
        verifier: None,
        callback: Some(deployment.callback_url.clone()),
        parameters,
    }
}

/// What the access-token call signs.
pub fn access_token_signing(
    deployment: &Deployment,
    consumer: &ConsumerCredentials,
    token: &TemporaryToken,
    verifier: &str,
) -> (r: SigningRequest)
    ensures
        is_access_token_signing(&r, deployment, consumer, token.token@, token.secret@, verifier@),
{
    SigningRequest {
        consumer: consumer.clone(),
        method: HttpMethod::Post,
        url: deployment.access_token_url.clone(),
        token: Some(token.clone()),
        verifier: Some(String::from_str(verifier)),
        callback: None,
        parameters: Vec::new(),
    }
}

/// Whether `list` holds the pair of `name` and `value`.
pub fn holds_pair(list: &Vec<(String, String)>, name: &str, value: &str) -> (r: bool)
    ensures
        r == pairs_view(list@).contains((name@, value@)),
{
    let mut i: usize = 0;
    while i < list.len()
        invariant
            i <= list.len(),
            forall|j: int| 0 <= j < i ==> pairs_view(list@)[j] != (name@, value@),
        decreases list.len() - i,
    {
        if str_equal(list[i].0.as_str(), name) && str_equal(list[i].1.as_str(), value) {
            proof {
                assert(pairs_view(list@)[i as int] == (name@, value@));
            }
            return true;
        }
        i += 1;
    }
    false
}

/// Copies a list of pairs without the repeats: each pair once, where it
/// first stands.
pub fn distinct(pairs: &Vec<(String, String)>) -> (out: Vec<(String, String)>)
    ensures
        pairs_view(out@) == distinct_pairs(pairs_view(pairs@)),
{
    let ghost all = pairs_view(pairs@);
    let mut out: Vec<(String, String)> = Vec::new();
    let mut i: usize = 0;
    proof {
        assert(pairs_view(out@) =~= all.subrange(0, 0));
    }
    while i < pairs.len()
        invariant
            i <= pairs.len(),
            all == pairs_view(pairs@),
            pairs_view(out@) == distinct_pairs(all.subrange(0, i as int)),
        decreases pairs.len() - i,
    {
        let ghost before = pairs_view(out@);
        proof {
            assert(all.subrange(0, i + 1).drop_last() =~= all.subrange(0, i as int));
            assert(all.subrange(0, i + 1).last() == all[i as int]);
        }
        if !holds_pair(&out, pairs[i].0.as_str(), pairs[i].1.as_str()) {
            out.push((pairs[i].0.clone(), pairs[i].1.clone()));
            proof {
                assert(pairs_view(out@) =~= before.push(all[i as int]));
            }
        }
        i += 1;
    }
    proof {
        assert(all.subrange(0, i as int) =~= all);
    }
    out
}

/// A list without its repeats holds no pair twice, and holds the pairs that
/// the list holds, no more and no fewer.
pub proof fn law_distinct_pairs(pairs: Seq<(Seq<char>, Seq<char>)>)
    ensures
        distinct_pairs(pairs).no_duplicates(),
        distinct_pairs(pairs).to_set() == pairs.to_set(),
    decreases pairs.len(),
{
    if pairs.len() > 0 {
        let front = pairs.drop_last();
        let earlier = distinct_pairs(front);
        let result = distinct_pairs(pairs);
        law_distinct_pairs(front);
        assert forall|x: (Seq<char>, Seq<char>)| result.contains(x) <==> pairs.contains(x) by {
            assert(earlier.contains(x) <==> front.contains(x)) by {
                assert(earlier.to_set().contains(x) <==> front.to_set().contains(x));
            }
            if front.contains(x) {
                let i = choose|i: int| 0 <= i < front.len() && front[i] == x;
                assert(pairs[i] == x);
            }
            if pairs.contains(x) && x != pairs.last() {
                let i = choose|i: int| 0 <= i < pairs.len() && pairs[i] == x;
                assert(front[i] == x);
            }
            assert(pairs[pairs.len() - 1] == pairs.last());
            if !earlier.contains(pairs.last()) {
                assert(result == earlier.push(pairs.last()));
                assert(result[result.len() - 1] == pairs.last());
                if earlier.contains(x) {
                    let i = choose|i: int| 0 <= i < earlier.len() && earlier[i] == x;
                    assert(result[i] == x);
                }
                if result.contains(x) {
                    let i = choose|i: int| 0 <= i < result.len() && result[i] == x;
                    if i < earlier.len() {
                        assert(earlier[i] == x);
                    }
                }
            }
        }
        assert(result.to_set() =~= pairs.to_set());
        if !earlier.contains(pairs.last()) {
            assert forall|i: int, j: int|
                0 <= i < result.len() && 0 <= j < result.len() && i != j implies result[i]
                != result[j] by {
                if i < earlier.len() && j < earlier.len() {
                    assert(earlier[i] != earlier[j]);
                } else if i < earlier.len() {
                    assert(earlier[i] == result[i]);
                } else {
                    assert(earlier[j] == result[j]);
                }
            }
        }
    } else {
        assert(pairs.to_set() =~= distinct_pairs(pairs).to_set());
    }
}

/// What a signed request sends as its query is what its signature covers:
/// the same pairs, each of them once.
pub proof fn law_query_is_what_is_signed(request: &SignedRequest, signing: &SigningRequest)
    requires
        carries_signature(request, signing),
    ensures
        pairs_view(request.query@).no_duplicates(),
        pairs_view(request.query@).to_set() == pairs_view(signing.parameters@).to_set(),
{
    law_distinct_pairs(pairs_view(signing.parameters@));
}

/// Lays out for sending a request whose signature is at hand: it goes where
/// `signing` says, with the parameters of `signing` as its query, each pair
/// once as the signature covers it, and `authorization` as its header.
pub fn lay_out(signing: &SigningRequest, authorization: String) -> (request: SignedRequest)
    ensures
        request.method == signing.method,
        request.url@ == signing.url@,
        request.authorization == authorization,
        request.user_agent@ == user_agent_spec(),
        pairs_view(request.query@) == distinct_pairs(pairs_view(signing.parameters@)),
{
    SignedRequest {
        method: signing.method,
        url: signing.url.clone(),
        authorization,
        user_agent: String::from_str("Cinnamon"),
        query: distinct(&signing.parameters),
    }
}

/// Signs `signing` and lays the request out for sending.
pub fn signed_request(signing: &SigningRequest) -> (r: Result<SignedRequest, SigningError>)
    ensures
        match r {
            Ok(request) => signing.failure().is_none() && carries_signature(&request, signing),
            Err(e) => signing.failure() == Some(e),
        },
{
    match sign(signing) {
        Err(e) => Err(e),
        Ok(authorization) => Ok(lay_out(signing, authorization)),
    }
}

/// The two parameters of the request-token call differ in their names, so
/// none of them is a repeat.
proof fn lemma_stage_parameters_are_distinct(deployment: &Deployment)
    ensures
        distinct_pairs(stage_parameters(deployment)) == stage_parameters(deployment),
{
    let both = stage_parameters(deployment);
    let first = both.drop_last();
    reveal_strlit("scope");
    reveal_strlit("expiry");
    assert("scope"@.len() != "expiry"@.len());
    assert(first =~= seq![both[0]]);
    assert(first.drop_last() =~= Seq::<(Seq<char>, Seq<char>)>::empty());
    assert(distinct_pairs(first.drop_last()) =~= Seq::<(Seq<char>, Seq<char>)>::empty());
    assert(distinct_pairs(first) =~= first);
    assert(!first.contains(both[1]));
    assert(distinct_pairs(both) =~= first.push(both.last()));
    assert(first.push(both.last()) =~= both);
}

/// The first stage, before the provider is asked: the signed request for a
/// request token.
pub fn obtain_request_token(deployment: &Deployment, consumer: &ConsumerCredentials) -> (r: Result<
    SignedRequest,
    SigningError,
>)
    ensures
        match r {
            Ok(request) => request_token_refusal(deployment, consumer).is_none()
                && is_request_token_call(&request, deployment, consumer),
            Err(e) => request_token_refusal(deployment, consumer) == Some(e),
        },
{
    let signing = request_token_signing(deployment, consumer);
    let r = signed_request(&signing);
    proof {
        reveal_strlit("POST");
        lemma_stage_parameters_are_distinct(deployment);
        if let Ok(request) = &r {
            let (n, t) = choose|n: Seq<char>, t: u64|
                request.authorization@ == #[trigger] signing.header_at(n, t);
            assert(request.authorization@ == request_token_header(deployment, consumer, n, t));
        }
    }
    r
}

/// The second stage: the address at the provider that the user is sent to.
/// The token is put into it as it is.
pub fn build_authorize_url(deployment: &Deployment, token: &str) -> (url: String)
    ensures
        url@ == authorize_url_spec(deployment, token@),
{
    let mut url = deployment.authorize_url.clone();
    url.append("?oauth_token=");
    url.append(token);
    url.append("&oauth_callback=");
    url.append(deployment.callback_url.as_str());
    url
}

/// The third stage, before the provider is asked: the signed request that
/// trades the authorised token for an access token.
pub fn exchange_request_for_access(
    deployment: &Deployment,
    consumer: &ConsumerCredentials,
    token: &TemporaryToken,
    verifier: &str,
) -> (r: Result<SignedRequest, SigningError>)
    ensures
        match r {
            Ok(request) => access_token_refusal(deployment, consumer).is_none()
                && is_access_token_call(
                &request,
                deployment,
                consumer,
                token.token@,
                token.secret@,
                verifier@,
            ),
            Err(e) => access_token_refusal(deployment, consumer) == Some(e),
        },
{
    let signing = access_token_signing(deployment, consumer, token, verifier);
    let r = signed_request(&signing);
    proof {
        reveal_strlit("POST");
        if let Ok(request) = &r {
            let (n, t) = choose|n: Seq<char>, t: u64|
                request.authorization@ == #[trigger] signing.header_at(n, t);
            assert(request.query@.len() == pairs_view(request.query@).len());
            assert(pairs_view(signing.parameters@).to_set() =~= Set::<
                (Seq<char>, Seq<char>),
            >::empty());
            assert(request.authorization@ == access_token_header(
                deployment,
                consumer,
                token.token@,
                token.secret@,
                verifier@,
                n,
                t,
            ));
        }
    }
    r
}

/// The landing page, once the provider has answered the request-token call:
/// reads the token pair, keeps the secret in the relay and hands back the
/// address to send the user to. Where the answer is not accepted the relay
/// stays as it was.
pub fn index(deployment: &Deployment, relay: &mut SecretRelay, response: &ProviderResponse) -> (r:
    Result<String, ProviderError>)
    ensures
        match token_of_response(response.status, response.body@) {
            Ok(pair) => r.is_ok() && r.unwrap()@ == authorize_url_spec(deployment, pair.0)
                && final(relay)@ == slot_put(old(relay)@, pair.0, pair.1),
            Err(e) => r == Err::<String, ProviderError>(e) && final(relay)@ == old(relay)@,
        },
{
    match request_token_from_response(response) {
        Err(e) => Err(e),
        Ok(token) => {
            relay.put(token.token.as_str(), token.secret.as_str());
            Ok(build_authorize_url(deployment, token.token.as_str()))
        },
    }
}

/// The callback, before the provider is asked: takes the secret of
/// `oauth_token` out of the relay and builds the signed access-token
/// request with it. Where the relay holds no secret for the token, nothing
/// is signed and the relay stays as it was.
pub fn authorised(
    deployment: &Deployment,
    relay: &mut SecretRelay,
    consumer: &ConsumerCredentials,
    oauth_token: &str,
    oauth_verifier: &str,
) -> (r: Result<SignedRequest, FlowError>)
    ensures
        final(relay)@ == slot_after_take(old(relay)@, oauth_token@),
        match slot_secret(old(relay)@, oauth_token@) {
            None => r == Err::<SignedRequest, FlowError>(FlowError::NotFound),
            Some(secret) => match r {
                Ok(request) => access_token_refusal(deployment, consumer).is_none()
                    && is_access_token_call(
                    &request,
                    deployment,
                    consumer,
                    oauth_token@,
                    secret,
                    oauth_verifier@,
                ),
                Err(e) => access_token_refusal(deployment, consumer).is_some() && e
                    == FlowError::Signing(access_token_refusal(deployment, consumer).unwrap()),
            },
        },
{
    match relay.take(oauth_token) {
        Err(_) => Err(FlowError::NotFound),
        Ok(secret) => {
            let token = TemporaryToken { token: String::from_str(oauth_token), secret };
            match exchange_request_for_access(deployment, consumer, &token, oauth_verifier) {
                Ok(request) => Ok(request),
                Err(e) => Err(FlowError::Signing(e)),
            }
        },
    }
}

/// The outcome of the callback for an answer of the provider to the
/// access-token call.
pub open spec fn access_token_outcome(status: u16, body: Seq<char>) -> Result<Seq<char>, FlowError> {
    match body_of_response(status, body) {
        Ok(token) => Ok(token),
        Err(e) => Err(FlowError::Provider(e)),
    }
}

/// The callback, once the provider has answered the access-token call: the
/// body of an accepted answer is the access token, handed back as it came.
pub fn receive_access_token(response: &ProviderResponse) -> (r: Result<String, FlowError>)
    ensures
        match r {
            Ok(token) => access_token_outcome(response.status, response.body@) == Ok::<
                Seq<char>,
                FlowError,
            >(token@),
            Err(e) => access_token_outcome(response.status, response.body@) == Err::<
                Seq<char>,
                FlowError,
            >(e),
        },
{
    match access_token_from_response(response) {
        Ok(token) => Ok(token),
        Err(e) => Err(FlowError::Provider(e)),
    }
}

} // verus!
