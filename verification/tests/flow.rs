use cinnamon::credentials::{ConsumerCredentials, TemporaryToken};
use cinnamon::flow::{
    access_token_signing, authorised, build_authorize_url, exchange_request_for_access, index,
    distinct, holds_pair, lay_out, obtain_request_token, receive_access_token,
    request_token_signing, signed_request, Deployment, FlowError, FlowState, SignedRequest,
};
use cinnamon::relay::SecretRelay;
use cinnamon::response::{access_token_from_response, ProviderError, ProviderResponse};
use cinnamon::signer::{sign_at, HttpMethod, SigningError};

fn consumer() -> ConsumerCredentials {
    ConsumerCredentials::new("key".to_string(), "secret".to_string())
}

fn response(status: u16, body: &str) -> ProviderResponse {
    ProviderResponse { status, body: body.to_string() }
}

fn value_of(header: &str, name: &str) -> String {
    let open = format!("{}=\"", name);
    let start = header.find(&open).unwrap() + open.len();
    let end = header[start..].find('"').unwrap();
    header[start..start + end].to_string()
}

/// Answers the access-token call as a provider would that holds `S1` for
/// `T1`: it signs the request itself and compares.
fn stub_access_token(deployment: &Deployment, request: &SignedRequest) -> ProviderResponse {
    let token = TemporaryToken::new("T1".to_string(), "S1".to_string());
    let signing = access_token_signing(deployment, &consumer(), &token, "V1");
    let nonce = value_of(&request.authorization, "oauth_nonce");
    let timestamp: u64 = value_of(&request.authorization, "oauth_timestamp").parse().unwrap();
    let expected = sign_at(&signing, &nonce, timestamp).unwrap();
    if request.url == deployment.access_token_url && request.authorization == expected {
        response(200, "oauth_token=A1&oauth_token_secret=AS1&user_id=U")
    } else {
        response(401, "signature_invalid")
    }
}

#[test]
fn warwick_deployment_constants() {
    let d = Deployment::warwick();
    assert_eq!(d.request_token_url, "https://websignon.warwick.ac.uk/oauth/requestToken");
    assert_eq!(d.authorize_url, "https://websignon.warwick.ac.uk/oauth/authorise");
    assert_eq!(d.access_token_url, "https://websignon.warwick.ac.uk/oauth/accessToken");
    assert_eq!(d.callback_url, "http://localhost:8000/authorised");
    assert_eq!(d.scope, "urn:websignon.warwick.ac.uk:sso:service");
    assert_eq!(d.expiry, "forever");
}

#[test]
fn authorize_url_is_put_together() {
    assert_eq!(
        build_authorize_url(&Deployment::warwick(), "T1"),
        "https://websignon.warwick.ac.uk/oauth/authorise?oauth_token=T1&oauth_callback=http://localhost:8000/authorised"
    );
}

#[test]
fn request_token_call_is_laid_out() {
    let d = Deployment::warwick();
    let request = obtain_request_token(&d, &consumer()).unwrap();
    assert_eq!(request.method, HttpMethod::Post);
    assert_eq!(request.url, d.request_token_url);
    assert_eq!(request.user_agent, "Cinnamon");
    assert_eq!(
        request.query,
        vec![
            ("scope".to_string(), "urn:websignon.warwick.ac.uk:sso:service".to_string()),
            ("expiry".to_string(), "forever".to_string()),
        ]
    );
    assert_eq!(value_of(&request.authorization, "oauth_consumer_key"), "key");
    assert_eq!(
        value_of(&request.authorization, "oauth_callback"),
        "http%3A%2F%2Flocalhost%3A8000%2Fauthorised"
    );
    assert!(!request.authorization.contains("oauth_token="));
    let nonce = value_of(&request.authorization, "oauth_nonce");
    let timestamp: u64 = value_of(&request.authorization, "oauth_timestamp").parse().unwrap();
    let signing = request_token_signing(&d, &consumer());
    assert_eq!(sign_at(&signing, &nonce, timestamp).unwrap(), request.authorization);
}

#[test]
fn request_token_signing_is_fixed() {
    let d = Deployment::warwick();
    let signing = request_token_signing(&d, &consumer());
    assert_eq!(
        sign_at(&signing, "nonce", 1318622958).unwrap(),
        sign_at(&request_token_signing(&d, &consumer()), "nonce", 1318622958).unwrap()
    );
    assert_eq!(signing.callback, Some("http://localhost:8000/authorised".to_string()));
    assert_eq!(signing.token, None);
    assert_eq!(signing.verifier, None);
}

#[test]
fn request_token_call_needs_credentials() {
    let empty = ConsumerCredentials::new(String::new(), "secret".to_string());
    assert_eq!(
        obtain_request_token(&Deployment::warwick(), &empty),
        Err(SigningError::EmptyCredentials)
    );
}

#[test]
fn request_token_call_needs_a_url() {
    let mut d = Deployment::warwick();
    d.request_token_url = "requestToken".to_string();
    assert_eq!(obtain_request_token(&d, &consumer()), Err(SigningError::InvalidUrl));
}

#[test]
fn access_token_call_is_laid_out() {
    let d = Deployment::warwick();
    let token = TemporaryToken::new("T1".to_string(), "S1".to_string());
    let request = exchange_request_for_access(&d, &consumer(), &token, "V1").unwrap();
    assert_eq!(request.method, HttpMethod::Post);
    assert_eq!(request.url, d.access_token_url);
    assert_eq!(request.user_agent, "Cinnamon");
    assert!(request.query.is_empty());
    assert_eq!(value_of(&request.authorization, "oauth_token"), "T1");
    assert_eq!(value_of(&request.authorization, "oauth_verifier"), "V1");
    assert!(!request.authorization.contains("oauth_callback="));
}

#[test]
fn signed_request_copies_the_parameters() {
    let signing = request_token_signing(&Deployment::warwick(), &consumer());
    let request = signed_request(&signing).unwrap();
    assert_eq!(request.query, signing.parameters);
    assert_eq!(request.url, signing.url);
}

#[test]
fn index_stores_the_secret_and_redirects() {
    let d = Deployment::warwick();
    let mut relay = SecretRelay::new();
    let url = index(&d, &mut relay, &response(200, "oauth_token=T1&oauth_token_secret=S1"));
    assert_eq!(
        url,
        Ok("https://websignon.warwick.ac.uk/oauth/authorise?oauth_token=T1&oauth_callback=http://localhost:8000/authorised".to_string())
    );
    assert_eq!(relay.take("T1"), Ok("S1".to_string()));
}

#[test]
fn index_leaves_the_relay_alone_on_a_malformed_body() {
    let d = Deployment::warwick();
    let mut relay = SecretRelay::new();
    assert_eq!(
        index(&d, &mut relay, &response(200, "oauth_token=T1")),
        Err(ProviderError::MissingTokenSecret)
    );
    assert!(relay.is_empty());
    relay.put("T0", "S0");
    assert_eq!(
        index(&d, &mut relay, &response(200, "oauth_token_secret=S1")),
        Err(ProviderError::MissingToken)
    );
    assert_eq!(index(&d, &mut relay, &response(503, "")), Err(ProviderError::Status(503)));
    assert_eq!(relay.take("T0"), Ok("S0".to_string()));
}

#[test]
fn authorised_fails_before_signing_when_nothing_is_stored() {
    let d = Deployment::warwick();
    let mut relay = SecretRelay::new();
    assert_eq!(authorised(&d, &mut relay, &consumer(), "T1", "V1"), Err(FlowError::NotFound));
    assert!(relay.is_empty());
}

#[test]
fn authorised_fails_for_another_token() {
    let d = Deployment::warwick();
    let mut relay = SecretRelay::new();
    relay.put("T1", "S1");
    assert_eq!(authorised(&d, &mut relay, &consumer(), "T2", "V1"), Err(FlowError::NotFound));
    assert_eq!(relay.take("T1"), Ok("S1".to_string()));
}

#[test]
fn authorised_reports_a_signing_error() {
    let d = Deployment::warwick();
    let mut relay = SecretRelay::new();
    relay.put("T1", "S1");
    let empty = ConsumerCredentials::new("key".to_string(), String::new());
    assert_eq!(
        authorised(&d, &mut relay, &empty, "T1", "V1"),
        Err(FlowError::Signing(SigningError::EmptyCredentials))
    );
    assert!(relay.is_empty());
}

#[test]
fn authorised_is_single_use() {
    let d = Deployment::warwick();
    let mut relay = SecretRelay::new();
    relay.put("T1", "S1");
    assert!(authorised(&d, &mut relay, &consumer(), "T1", "V1").is_ok());
    assert_eq!(authorised(&d, &mut relay, &consumer(), "T1", "V1"), Err(FlowError::NotFound));
}

#[test]
fn round_trip_against_a_stub_provider() {
    let d = Deployment::warwick();
    let mut relay = SecretRelay::new();

    let first = obtain_request_token(&d, &consumer()).unwrap();
    assert_eq!(first.url, d.request_token_url);
    let redirect =
        index(&d, &mut relay, &response(200, "oauth_token=T1&oauth_token_secret=S1")).unwrap();
    assert!(redirect.contains("oauth_token=T1"));
    assert!(!redirect.contains("S1"));

    let second = authorised(&d, &mut relay, &consumer(), "T1", "V1").unwrap();
    let answer = stub_access_token(&d, &second);
    assert_eq!(
        access_token_from_response(&answer),
        Ok("oauth_token=A1&oauth_token_secret=AS1&user_id=U".to_string())
    );
}

#[test]
fn stub_provider_refuses_another_secret() {
    let d = Deployment::warwick();
    let mut relay = SecretRelay::new();
    relay.put("T1", "S2");
    let request = authorised(&d, &mut relay, &consumer(), "T1", "V1").unwrap();
    let answer = stub_access_token(&d, &request);
    assert_eq!(access_token_from_response(&answer), Err(ProviderError::Status(401)));
}

#[test]
fn flow_state_advances_through_both_answers() {
    let start = FlowState::Unstarted;
    assert!(!start.is_terminal());
    let middle = start.advance(&response(200, "oauth_token=T1&oauth_token_secret=S1")).unwrap();
    assert_eq!(
        middle,
        FlowState::RequestTokenObtained(TemporaryToken::new("T1".to_string(), "S1".to_string()))
    );
    assert!(!middle.is_terminal());
    let end = middle.advance(&response(200, "the access token")).unwrap();
    assert_eq!(end, FlowState::AccessTokenObtained("the access token".to_string()));
    assert!(end.is_terminal());
}

#[test]
fn flow_state_gives_up_on_a_refused_answer() {
    assert_eq!(
        FlowState::Unstarted.advance(&response(200, "oauth_token=T1")),
        Err(ProviderError::MissingTokenSecret)
    );
    assert_eq!(
        FlowState::Unstarted.advance(&response(500, "oauth_token=T1&oauth_token_secret=S1")),
        Err(ProviderError::Status(500))
    );
    let middle =
        FlowState::RequestTokenObtained(TemporaryToken::new("T1".to_string(), "S1".to_string()));
    assert_eq!(middle.advance(&response(403, "no")), Err(ProviderError::Status(403)));
}

#[test]
fn lay_out_keeps_the_header_it_is_given() {
    let signing = request_token_signing(&Deployment::warwick(), &consumer());
    let request = lay_out(&signing, "OAuth header".to_string());
    assert_eq!(request.authorization, "OAuth header");
    assert_eq!(request.method, HttpMethod::Post);
    assert_eq!(request.url, "https://websignon.warwick.ac.uk/oauth/requestToken");
    assert_eq!(request.user_agent, "Cinnamon");
    assert_eq!(request.query, signing.parameters);
}

fn pair(name: &str, value: &str) -> (String, String) {
    (name.to_string(), value.to_string())
}

#[test]
fn distinct_keeps_the_first_of_each_pair() {
    let pairs = vec![pair("a", "1"), pair("b", "2"), pair("a", "1"), pair("a", "2"), pair("b", "2")];
    assert_eq!(distinct(&pairs), vec![pair("a", "1"), pair("b", "2"), pair("a", "2")]);
    assert_eq!(distinct(&Vec::new()), Vec::new());
}

#[test]
fn holds_pair_compares_name_and_value() {
    let pairs = vec![pair("a", "1"), pair("b", "2")];
    assert!(holds_pair(&pairs, "a", "1"));
    assert!(holds_pair(&pairs, "b", "2"));
    assert!(!holds_pair(&pairs, "a", "2"));
    assert!(!holds_pair(&Vec::new(), "a", "1"));
}

#[test]
fn a_repeated_parameter_is_sent_once() {
    let mut signing = request_token_signing(&Deployment::warwick(), &consumer());
    let once = signing.parameters.clone();
    signing.parameters.push(pair("scope", "urn:websignon.warwick.ac.uk:sso:service"));
    let request = signed_request(&signing).unwrap();
    assert_eq!(request.query, once);
    let nonce = value_of(&request.authorization, "oauth_nonce");
    let timestamp: u64 = value_of(&request.authorization, "oauth_timestamp").parse().unwrap();
    let plain = request_token_signing(&Deployment::warwick(), &consumer());
    assert_eq!(sign_at(&plain, &nonce, timestamp).unwrap(), request.authorization);
}

#[test]
fn receive_access_token_hands_the_body_back() {
    assert_eq!(
        receive_access_token(&response(200, "oauth_token=A1&oauth_token_secret=AS1")),
        Ok("oauth_token=A1&oauth_token_secret=AS1".to_string())
    );
}

#[test]
fn receive_access_token_reports_a_provider_error() {
    assert_eq!(
        receive_access_token(&response(401, "denied")),
        Err(FlowError::Provider(ProviderError::Status(401)))
    );
}
