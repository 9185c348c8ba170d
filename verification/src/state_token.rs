//! Single-use state tokens: the browser carries the bytes in hexadecimal, the
//! database keeps their digest.

use crate::clock::Timestamp;
use crate::digest::{hex_bytes, hex_decode, hex_encode, hex_of, hex_value, is_hex, random_bytes, sha256, sha256_of};
use crate::error::AppError;
use vstd::prelude::*;
use vstd::string::*;
use vstd::utf8::*;

verus! {

/// How long a state token can be claimed, in seconds (10 minutes).
pub const STATE_TOKEN_TTL_SECS: i64 = 600;

/// A state token as it is handed out and as it is kept.
#[derive(Debug)]
pub struct StateToken {
    pub text: String,
    pub hash: Vec<u8>,
}

impl StateToken {
    /// Whether this is the token for the bytes `raw`.
    pub open spec fn of(&self, raw: Seq<u8>) -> bool {
        self.text@ == hex_of(raw) && self.hash@ == sha256_of(raw)
    }

    /// Whether this is the token for some 32 bytes.
    pub open spec fn issued(&self) -> bool {
        exists|raw: Seq<u8>| raw.len() == 32 && #[trigger] self.of(raw)
    }
}

/// The digest under which a presented token is kept, if it is hexadecimal at all.
pub open spec fn presented(text: Seq<char>) -> Result<Seq<u8>, AppError> {
    if is_hex(encode_utf8(text)) {
        Ok(sha256_of(hex_bytes(encode_utf8(text))))
    } else {
        Err(AppError::InvalidToken)
    }
}

/// The token for the bytes `raw`.
pub fn state_token(raw: &[u8]) -> (t: StateToken)
    ensures
        t.of(raw@),
        t.text@ == hex_of(raw@),
        t.hash@ == sha256_of(raw@),
{
    StateToken { text: hex_encode(raw), hash: sha256(raw) }
}

/// A token for 32 random bytes.
pub fn issue_state_token() -> (t: StateToken)
    ensures
        t.issued(),
{
    let raw = random_bytes(32);
    let t = state_token(raw.as_slice());
    assert(t.of(raw@));
    t
}

/// The digest under which a presented token is kept.
pub fn read_state_token(text: &str) -> (r: Result<Vec<u8>, AppError>)
    ensures
        match r {
            Ok(hash) => presented(text@) == Ok::<Seq<u8>, AppError>(hash@),
            Err(e) => presented(text@) == Err::<Seq<u8>, AppError>(e),
        },
        is_hex(encode_utf8(text@)) ==> (r matches Ok(hash) && hash@ == sha256_of(hex_bytes(encode_utf8(text@)))),
        !is_hex(encode_utf8(text@)) ==> r == Err::<Vec<u8>, AppError>(AppError::InvalidToken),
{
    match hex_decode(text) {
        Ok(raw) => Ok(sha256(raw.as_slice())),
        Err(_) => Err(AppError::InvalidToken),
    }
}

/// Reading back what bytes are written as in hexadecimal gives the bytes.
pub proof fn hex_round_trip(raw: Seq<u8>)
    ensures
        is_hex(encode_utf8(hex_of(raw))),
        hex_bytes(encode_utf8(hex_of(raw))) == raw,
{
    let chars = hex_of(raw);
    assert(is_ascii_chars(chars));
    is_ascii_chars_encode_utf8(chars);
    let text = encode_utf8(chars);
    assert forall|i: int| 0 <= i < text.len() implies hex_value(#[trigger] text[i]) == Some(
        if i % 2 == 0 { raw[i / 2] as int / 16 } else { raw[i / 2] as int % 16 },
    ) by {
        assert(text[i] == chars[i] as u8);
    }
    assert forall|i: int| 0 <= i < raw.len() implies hex_bytes(text)[i] == raw[i] by {
        assert(hex_value(text[2 * i]) == Some(raw[i] as int / 16));
        assert(hex_value(text[2 * i + 1]) == Some(raw[i] as int % 16));
    }
    assert(hex_bytes(text) =~= raw);
}

/// A token that was handed out is found under the digest it was kept under.
pub proof fn state_token_round_trip(t: StateToken, raw: Seq<u8>)
    requires
        t.of(raw),
    ensures
        presented(t.text@) == Ok::<Seq<u8>, AppError>(t.hash@),
{
    hex_round_trip(raw);
}

/// A state token as it is kept: who it was handed out to, until when it can be
/// claimed, and whether it was.
pub struct StateRow<I> {
    pub initiator: I,
    pub expires_at: Timestamp,
    pub claimed: bool,
}

/// The state tokens that are kept, by their digest.
pub struct StateTable<I> {
    pub rows: Map<Seq<u8>, StateRow<I>>,
}

/// An attempt to claim a token.
pub struct ClaimAttempt {
    pub hash: Seq<u8>,
    pub at: Timestamp,
}

impl<I> StateTable<I> {
    /// Whether the token with this digest can be claimed at `at`: it is there, was not
    /// claimed and has not expired.
    pub open spec fn claimable(self, hash: Seq<u8>, at: Timestamp) -> bool {
        self.rows.contains_key(hash) && !self.rows[hash].claimed && self.rows[hash].expires_at.micros > at.micros
    }

    /// Whom a claim finds the token to be handed out to, if it can be claimed.
    pub open spec fn claim(self, hash: Seq<u8>, at: Timestamp) -> Option<I> {
        if self.claimable(hash, at) {
            Some(self.rows[hash].initiator)
        } else {
            None
        }
    }

    /// What a claim leaves.
    pub open spec fn after_claim(self, hash: Seq<u8>, at: Timestamp) -> StateTable<I> {
        if self.claimable(hash, at) {
            StateTable { rows: self.rows.insert(hash, StateRow { claimed: true, ..self.rows[hash] }) }
        } else {
            self
        }
    }

    /// What claims leave, made one after the other.
    pub open spec fn after_claims(self, claims: Seq<ClaimAttempt>) -> StateTable<I>
        decreases claims.len(),
    {
        if claims.len() == 0 {
            self
        } else {
            self.after_claims(claims.drop_last()).after_claim(claims.last().hash, claims.last().at)
        }
    }
}

proof fn lemma_stays_claimed<I>(table: StateTable<I>, hash: Seq<u8>, claims: Seq<ClaimAttempt>)
    requires
        table.rows.contains_key(hash),
        table.rows[hash].claimed,
    ensures
        table.after_claims(claims).rows.contains_key(hash),
        table.after_claims(claims).rows[hash].claimed,
    decreases claims.len(),
{
    if claims.len() > 0 {
        lemma_stays_claimed(table, hash, claims.drop_last());
    }
}

/// A state token is good once: after a claim that found it, and whatever other claims
/// were made since, no claim finds it again, at whatever time.
pub proof fn state_tokens_are_single_use<I>(
    table: StateTable<I>,
    hash: Seq<u8>,
    at: Timestamp,
    between: Seq<ClaimAttempt>,
    again: Timestamp,
)
    requires
        table.claim(hash, at) is Some,
    ensures
        table.after_claim(hash, at).after_claims(between).claim(hash, again) is None,
{
    lemma_stays_claimed(table.after_claim(hash, at), hash, between);
}

} // verus!
