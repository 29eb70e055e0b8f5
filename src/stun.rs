//! STUN binding requests (RFC 5389) and how often a query is retried.
use vstd::prelude::*;
use bytecodec::EncodeExt;
use stun_codec::rfc5389::{methods::BINDING, Attribute};
use stun_codec::{Message, MessageClass, MessageEncoder, TransactionId};

verus! {

/// Retries after a failed query.
pub const MAX_RETRIES: u32 = 5;

/// Pause before each retry, in milliseconds.
pub const RETRY_INTERVAL_MS: u64 = 100;

/// A binding request without attributes: message type 0x0001, length 0,
/// the magic cookie, then the transaction id.
pub open spec fn binding_request(transaction_id: Seq<u8>) -> Seq<u8> {
    seq![0x00u8, 0x01u8, 0x00u8, 0x00u8, 0x21u8, 0x12u8, 0xa4u8, 0x42u8] + transaction_id
}

#[verifier::external_type_specification]
#[verifier::external_body]
pub struct ExBytecodecError(bytecodec::Error);

/// Relies on `rand::random`: twelve bytes drawn from the thread rng.
#[verifier::external_body]
fn random_transaction_id() -> (r: [u8; 12]) {
    rand::random()
}

/// Relies on stun_codec's `MessageEncoder` (with bytecodec's
/// `encode_into_bytes`): a message with no attributes is encoded as its
/// 16-bit type, a zero length, the magic cookie and the transaction id.
/// Encoding fails only through an attribute or a message of 0x10000 bytes
/// or more, so it succeeds here.
#[verifier::external_body]
fn encode_binding_request(transaction_id: [u8; 12]) -> (r: Result<Vec<u8>, bytecodec::Error>)
    ensures
        r is Ok,
        r matches Ok(v) ==> v@ == binding_request(transaction_id@),
{
    let request = Message::<Attribute>::new(
        MessageClass::Request,
        BINDING,
        TransactionId::new(transaction_id),
    );
    MessageEncoder::<Attribute>::default().encode_into_bytes(request)
}

/// A STUN query that could not be made.
#[derive(Debug, Clone, Copy, PartialEq, Eq, Structural)]
pub enum StunError {
    Encode,
}

/// A binding request with a fresh random transaction id.
pub fn make_binding_request() -> (r: Result<Vec<u8>, StunError>)
    ensures
        r is Ok,
        r matches Ok(v) ==> exists|t: Seq<u8>| t.len() == 12 && v@ == binding_request(t),
{
    let transaction_id = random_transaction_id();
    match encode_binding_request(transaction_id) {
        Ok(v) => {
            assert(transaction_id@.len() == 12);
            Ok(v)
        },
        Err(_) => Err(StunError::Encode),
    }
}

/// After `retries_done` retries, a failed query is tried again after the
/// returned pause (in milliseconds), or given up on.
pub fn retry_delay(retries_done: u32) -> (r: Option<u64>)
    ensures
        retries_done < MAX_RETRIES ==> r == Some(RETRY_INTERVAL_MS),
        retries_done >= MAX_RETRIES ==> r is None,
{
    if retries_done < MAX_RETRIES {
        Some(RETRY_INTERVAL_MS)
    } else {
        None
    }
}

} // verus!
