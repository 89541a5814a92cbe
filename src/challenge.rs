use vstd::prelude::*;

verus! {

/// A proof-of-work puzzle as the challenge service issues it.
///
/// A nonce solves it when the SHA-256 digest of the decoded `random_nonce`
/// followed by the nonce's little-endian bytes is below `challenge_param`.
#[derive(Debug, Clone)]
pub struct Challenge {
    /// Hex string mixed into every hash.
    pub random_nonce: String,
    /// Creation time, milliseconds since the epoch.
    pub created_time: i64,
    /// Deadline, milliseconds since the epoch.
    pub expiration_time: i64,
    /// The protected resource the challenge grants access to.
    pub website_id: String,
    /// Target threshold a digest must stay below.
    pub challenge_param: [u8; 32],
    /// Hint of how many attempts a solve takes.
    pub recommended_attempts: u64,
    /// Key the service signs challenges with.
    pub public_key: [u8; 32],
    /// The service's signature over the challenge.
    pub challenge_signature: [u8; 64],
}

/// The mathematical content of a challenge.
pub struct ChallengeView {
    pub random_nonce: Seq<char>,
    pub created_time: i64,
    pub expiration_time: i64,
    pub website_id: Seq<char>,
    pub challenge_param: Seq<u8>,
    pub recommended_attempts: u64,
    pub public_key: Seq<u8>,
    pub challenge_signature: Seq<u8>,
}

impl View for Challenge {
    type V = ChallengeView;

    open spec fn view(&self) -> ChallengeView {
        ChallengeView {
            random_nonce: self.random_nonce@,
            created_time: self.created_time,
            expiration_time: self.expiration_time,
            website_id: self.website_id@,
            challenge_param: self.challenge_param@,
            recommended_attempts: self.recommended_attempts,
            public_key: self.public_key@,
            challenge_signature: self.challenge_signature@,
        }
    }
}

impl Challenge {
    /// A copy with the same content.
    pub fn duplicate(&self) -> (r: Challenge)
        ensures
            r@ == self@,
    {
        Challenge {
            random_nonce: self.random_nonce.clone(),
            created_time: self.created_time,
            expiration_time: self.expiration_time,
            website_id: self.website_id.clone(),
            challenge_param: self.challenge_param,
            recommended_attempts: self.recommended_attempts,
            public_key: self.public_key,
            challenge_signature: self.challenge_signature,
        }
    }

    /// Whether the challenge's deadline has passed at time `now`.
    pub fn is_expired_at(&self, now: i64) -> (r: bool)
        ensures
            r == (now > self.expiration_time),
    {
        now > self.expiration_time
    }
}

/// A challenge together with the nonce proposed as its solution.
#[derive(Debug, Clone)]
pub struct ChallengeResponse {
    pub solved_challenge: Challenge,
    pub solution: i64,
}

} // verus!
