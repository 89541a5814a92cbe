use crate::challenge::{Challenge, ChallengeResponse, ChallengeView};
use ironshield_types::{IronShieldChallenge, IronShieldChallengeResponse};
use serde_json::Value;
use vstd::prelude::*;

verus! {

broadcast use vstd::string::group_string_axioms;

#[verifier::external_type_specification]
#[verifier::external_body]
pub struct ExJsonValue(Value);

/// The name of the HTTP header that carries a solution to the protected endpoint.
pub const RESPONSE_HEADER: &'static str = "X-IronShield-Response";

/// The header encoding of a response to this challenge with this nonce.
pub uninterp spec fn response_header(challenge: ChallengeView, solution: i64) -> Seq<char>;

/// The member under `key` of a JSON value, when it is an object that has one.
pub uninterp spec fn json_member(v: Value, key: Seq<char>) -> Option<Value>;

/// The text of a JSON value, when it is a string.
pub uninterp spec fn json_text(v: Value) -> Option<Seq<char>>;

/// The number a JSON value holds, when it is a non-negative integer that fits in 64 bits.
pub uninterp spec fn json_u64(v: Value) -> Option<u64>;

/// What decoding a JSON value as a challenge gives: the challenge, or the
/// decoder's error text.
pub uninterp spec fn json_challenge(v: Value) -> Result<ChallengeView, Seq<char>>;

/// Relies on serde_json's Value::get with a string key: the member under
/// `key` when `v` is an object that has one. It depends on its arguments alone.
#[verifier::external_body]
fn member<'a>(v: &'a Value, key: &str) -> (r: Option<&'a Value>)
    ensures
        r is Some <==> json_member(*v, key@) is Some,
        r is Some ==> *r->Some_0 == json_member(*v, key@)->Some_0,
{
    v.get(key)
}

/// Relies on serde_json's Value::as_str: the text of a JSON string.
#[verifier::external_body]
fn text_of(v: &Value) -> (r: Option<String>)
    ensures
        r is Some <==> json_text(*v) is Some,
        r is Some ==> r->Some_0@ == json_text(*v)->Some_0,
{
    v.as_str().map(|s| s.to_string())
}

/// Relies on serde_json's Value::as_u64: the value of a JSON number that is
/// a non-negative integer fitting in 64 bits.
#[verifier::external_body]
fn number_of(v: &Value) -> (r: Option<u64>)
    ensures
        r == json_u64(*v),
{
    v.as_u64()
}

/// Relies on serde_json::from_value into ironshield_types' challenge, whose
/// fields are taken over one for one; the error is serde_json's message.
/// Whether and to what it decodes depends on the value alone.
#[verifier::external_body]
fn decode_challenge(v: &Value) -> (r: Result<Challenge, String>)
    ensures
        r is Ok <==> json_challenge(*v) is Ok,
        r is Ok ==> r->Ok_0@ == json_challenge(*v)->Ok_0,
        r is Err ==> r->Err_0@ == json_challenge(*v)->Err_0,
{
    serde_json::from_value::<IronShieldChallenge>(v.clone()).map(|c| Challenge {
        random_nonce: c.random_nonce,
        created_time: c.created_time,
        expiration_time: c.expiration_time,
        website_id: c.website_id,
        challenge_param: c.challenge_param,
        recommended_attempts: c.recommended_attempts,
        public_key: c.public_key,
        challenge_signature: c.challenge_signature,
    }).map_err(|e| e.to_string())
}

/// Relies on ironshield_types' IronShieldChallengeResponse::to_base64url_header:
/// the encoding depends on the challenge and the nonce alone.
#[verifier::external_body]
fn encode_header(r: &ChallengeResponse) -> (s: String)
    ensures
        s@ == response_header(r.solved_challenge@, r.solution),
{
    let c = &r.solved_challenge;
    let challenge = IronShieldChallenge {
        random_nonce: c.random_nonce.clone(),
        created_time: c.created_time,
        expiration_time: c.expiration_time,
        website_id: c.website_id.clone(),
        challenge_param: c.challenge_param,
        recommended_attempts: c.recommended_attempts,
        public_key: c.public_key,
        challenge_signature: c.challenge_signature,
    };
    IronShieldChallengeResponse::new(challenge, r.solution).to_base64url_header()
}

/// Relies on str::starts_with: whether `s` begins with `prefix`.
#[verifier::external_body]
fn has_prefix(s: &str, prefix: &str) -> (r: bool)
    ensures
        r == prefix@.is_prefix_of(s@),
{
    s.starts_with(prefix)
}

/// Why an exchange with the challenge service or the protected endpoint failed.
#[derive(Debug, Clone, PartialEq, Eq)]
pub enum ApiError {
    /// The endpoint does not use `https://`.
    InsecureEndpoint,
    /// The service answered with a status code other than 200.
    Status { status: u16, message: String },
    /// The service's reply did not have status `OK`; its message.
    Rejected(String),
    /// The reply has no `challenge` member.
    MissingChallenge,
    /// The `challenge` member is not a valid challenge; the decoder's message.
    Malformed(String),
    /// The protected endpoint refused the solution with this status and body.
    Refused { status: u16, body: String },
}

fn text_or(t: Option<String>, default: &str) -> (r: String)
    ensures
        r@ == match t {
            Some(s) => s@,
            None => default@,
        },
{
    match t {
        Some(s) => s,
        None => default.to_string(),
    }
}

/// The text of member `key` of `v`, when it is a JSON string.
pub open spec fn text_at(v: Value, key: Seq<char>) -> Option<Seq<char>> {
    match json_member(v, key) {
        Some(m) => json_text(m),
        None => None,
    }
}

/// What member `key` of `v` decodes to as a challenge: `None` when there is
/// no such member, else the challenge or the decoder's error text.
pub open spec fn challenge_at(v: Value, key: Seq<char>) -> Option<Result<ChallengeView, Seq<char>>> {
    match json_member(v, key) {
        Some(m) => Some(json_challenge(m)),
        None => None,
    }
}

/// The text of member `key` of `v`, if it is a JSON string.
fn text_member(v: &Value, key: &str) -> (r: Option<String>)
    ensures
        r is Some <==> text_at(*v, key@) is Some,
        r is Some ==> r->Some_0@ == text_at(*v, key@)->Some_0,
{
    match member(v, key) {
        Some(m) => text_of(m),
        None => None,
    }
}

/// Decodes member `key` of `v` as a challenge: `None` when there is no such member.
fn challenge_member(v: &Value, key: &str) -> (r: Option<Result<Challenge, String>>)
    ensures
        r is Some <==> challenge_at(*v, key@) is Some,
        r matches Some(d) ==> (d is Ok <==> challenge_at(*v, key@)->Some_0 is Ok),
        r matches Some(Ok(c)) ==> c@ == challenge_at(*v, key@)->Some_0->Ok_0,
        r matches Some(Err(e)) ==> e@ == challenge_at(*v, key@)->Some_0->Err_0,
{
    match member(v, key) {
        Some(m) => Some(decode_challenge(m)),
        None => None,
    }
}

/// The challenge an answer of the service carries, or why it carries none:
/// `decoded` is `None` when there is no challenge, else the decoder's result.
pub open spec fn challenge_verdict(decoded: Option<Result<Challenge, String>>, r: Result<Challenge, ApiError>) -> bool {
    match decoded {
        None => r == Err::<Challenge, ApiError>(ApiError::MissingChallenge),
        Some(Ok(c)) => r matches Ok(x) && x@ == c@,
        Some(Err(e)) => r matches Err(ApiError::Malformed(m)) && m@ == e@,
    }
}

/// Takes the challenge out of an answer, given what decoding its challenge
/// member gave: `None` when there is no such member.
pub fn take_challenge(decoded: Option<Result<Challenge, String>>) -> (r: Result<Challenge, ApiError>)
    ensures
        challenge_verdict(decoded, r),
{
    match decoded {
        None => Err(ApiError::MissingChallenge),
        Some(Ok(c)) => Ok(c),
        Some(Err(e)) => Err(ApiError::Malformed(e)),
    }
}

/// Interprets a reply of the challenge service from what was read out of it:
/// the texts of its `status` and `message` members and the decoding of its
/// `challenge` member. A status other than `OK` is a rejection carrying the
/// message, or "Unknown error"; with status `OK` the challenge is taken as
/// `take_challenge` does.
pub fn interpret_reply(
    status: Option<String>,
    message: Option<String>,
    decoded: Option<Result<Challenge, String>>,
) -> (r: Result<Challenge, ApiError>)
    ensures
        !(status is Some && status->Some_0@ == "OK"@) ==> (r matches Err(ApiError::Rejected(m)) && m@
            == match message {
            Some(s) => s@,
            None => "Unknown error"@,
        }),
        (status is Some && status->Some_0@ == "OK"@) ==> challenge_verdict(decoded, r),
{
    reply_verdict(status, message)?;
    take_challenge(decoded)
}

/// Fails with `InsecureEndpoint` exactly when `endpoint` does not start with `https://`.
pub fn check_endpoint(endpoint: &str) -> (r: Result<(), ApiError>)
    ensures
        r is Ok <==> "https://"@.is_prefix_of(endpoint@),
        r is Err ==> r->Err_0 == ApiError::InsecureEndpoint,
{
    if has_prefix(endpoint, "https://") {
        Ok(())
    } else {
        Err(ApiError::InsecureEndpoint)
    }
}

/// Judges a reply of the challenge service from its `status` and `message`
/// members: only the status `OK` is accepted; otherwise the reply is rejected
/// with its message, or with "Unknown error" when it has none.
pub fn reply_verdict(status: Option<String>, message: Option<String>) -> (r: Result<(), ApiError>)
    ensures
        r is Ok <==> (status is Some && status->Some_0@ == "OK"@),
        r is Err ==> (r matches Err(ApiError::Rejected(m)) && m@ == match message {
            Some(s) => s@,
            None => "Unknown error"@,
        }),
{
    let ok = "OK".to_string();
    let accepted = match &status {
        Some(s) => *s == ok,
        None => false,
    };
    if accepted {
        Ok(())
    } else {
        Err(ApiError::Rejected(text_or(message, "Unknown error")))
    }
}

/// Takes the challenge out of a reply of the challenge service: the reply
/// must have status `OK` and a `challenge` member that decodes. A reply with
/// another status is rejected with its message (or "Unknown error"); one with
/// status `OK` and no challenge member lacks the challenge; one whose
/// challenge does not decode is malformed.
pub fn challenge_from_reply(reply: &Value) -> (r: Result<Challenge, ApiError>)
    ensures
        r is Ok <==> (text_at(*reply, "status"@) == Some("OK"@) && json_member(*reply, "challenge"@) is Some
            && json_challenge(json_member(*reply, "challenge"@)->Some_0) is Ok),
        r is Ok ==> r->Ok_0@ == json_challenge(json_member(*reply, "challenge"@)->Some_0)->Ok_0,
        text_at(*reply, "status"@) != Some("OK"@) ==> (r matches Err(ApiError::Rejected(m)) && m@ == match text_at(
            *reply,
            "message"@,
        ) {
            Some(t) => t,
            None => "Unknown error"@,
        }),
        text_at(*reply, "status"@) == Some("OK"@) && json_member(*reply, "challenge"@) is None ==> r == Err::<
            Challenge,
            ApiError,
        >(ApiError::MissingChallenge),
        text_at(*reply, "status"@) == Some("OK"@) && json_member(*reply, "challenge"@) is Some && json_challenge(
            json_member(*reply, "challenge"@)->Some_0,
        ) is Err ==> (r matches Err(ApiError::Malformed(m)) && m@ == json_challenge(
            json_member(*reply, "challenge"@)->Some_0,
        )->Err_0),
{
    let status = text_member(reply, "status");
    let message = text_member(reply, "message");
    let decoded = challenge_member(reply, "challenge");
    interpret_reply(status, message, decoded)
}

/// The header that carries `response` to the protected endpoint: its name and its value.
pub fn submission_header(response: &ChallengeResponse) -> (r: (String, String))
    ensures
        r.0@ == RESPONSE_HEADER@,
        r.1@ == response_header(response.solved_challenge@, response.solution),
{
    (RESPONSE_HEADER.to_string(), encode_header(response))
}

/// What a submission comes to, given whether the protected endpoint answered
/// with a success status, the status and the body: the body on success,
/// else a refusal carrying both.
pub fn submission_outcome(success: bool, status: u16, body: String) -> (r: Result<String, ApiError>)
    ensures
        r is Ok <==> success,
        r matches Ok(b) ==> b@ == body@,
        r is Err ==> (r matches Err(ApiError::Refused { status: s, body: b }) && s == status && b@ == body@),
{
    if success {
        Ok(body)
    } else {
        Err(ApiError::Refused { status, body })
    }
}

/// A reply of the challenge service: its status code and message, and the
/// whole reply.
pub struct ApiResponse {
    pub status: u16,
    pub message: String,
    pub data: Value,
}

/// The status code read from a `status` member: the number modulo 2^16, or 0
/// when there is no such number.
pub open spec fn status_code(n: Option<u64>) -> u16 {
    match n {
        Some(v) => (v % 65536) as u16,
        None => 0,
    }
}

impl ApiResponse {
    /// A response from the numbers and texts already read out of `data`.
    pub fn from_fields(status: Option<u64>, message: Option<String>, data: Value) -> (r: ApiResponse)
        ensures
            r.status == status_code(status),
            r.message@ == match message {
                Some(s) => s@,
                None => "No message"@,
            },
            r.data == data,
    {
        let code: u16 = match status {
            Some(v) => (v % 65536) as u16,
            None => 0,
        };
        ApiResponse { status: code, message: text_or(message, "No message"), data }
    }

    /// Reads the `status` number and `message` text of a reply; it never fails.
    pub fn from_json(response: Value) -> (r: Result<ApiResponse, ApiError>)
        ensures
            r is Ok,
            r is Ok ==> r->Ok_0.data == response,
            r is Ok ==> r->Ok_0.status == status_code(
                match json_member(response, "status"@) {
                    Some(m) => json_u64(m),
                    None => None,
                },
            ),
            r is Ok ==> r->Ok_0.message@ == match text_at(response, "message"@) {
                Some(t) => t,
                None => "No message"@,
            },
    {
        let status = match member(&response, "status") {
            Some(s) => number_of(s),
            None => None,
        };
        let message = text_member(&response, "message");
        Ok(ApiResponse::from_fields(status, message, response))
    }

    /// Whether the status code is 200.
    pub fn is_success(&self) -> (r: bool)
        ensures
            r == (self.status == 200),
    {
        self.status == 200
    }

    /// The challenge in a successful reply. A reply with another status is
    /// an error that carries its status and message; a successful one without
    /// a `challenge` member lacks the challenge, and one whose challenge does
    /// not decode is malformed.
    pub fn extract_challenge(&self) -> (r: Result<Challenge, ApiError>)
        ensures
            self.status != 200 ==> (r matches Err(ApiError::Status { status, message })
                && status == self.status && message@ == self.message@),
            self.status == 200 ==> (r is Ok <==> (json_member(self.data, "challenge"@) is Some && json_challenge(
                json_member(self.data, "challenge"@)->Some_0,
            ) is Ok)),
            self.status == 200 && r is Ok ==> r->Ok_0@ == json_challenge(
                json_member(self.data, "challenge"@)->Some_0,
            )->Ok_0,
            self.status == 200 && json_member(self.data, "challenge"@) is None ==> r == Err::<
                Challenge,
                ApiError,
            >(ApiError::MissingChallenge),
            self.status == 200 && json_member(self.data, "challenge"@) is Some && json_challenge(
                json_member(self.data, "challenge"@)->Some_0,
            ) is Err ==> (r matches Err(ApiError::Malformed(m)) && m@ == json_challenge(
                json_member(self.data, "challenge"@)->Some_0,
            )->Err_0),
    {
        if !self.is_success() {
            return Err(ApiError::Status { status: self.status, message: self.message.clone() });
        }
        take_challenge(challenge_member(&self.data, "challenge"))
    }
}

} // verus!
