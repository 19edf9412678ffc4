//! The delegation forwarder: a stateless passthrough that turns a
//! delegate or undelegate request into the auction call to make against
//! the external staking subsystem, with the same three arguments.  The
//! subsystem's accounting result is discarded by the caller-facing entry
//! points, whose result is unit.

use vstd::prelude::*;

verus! {

/// A public key, held as its raw serialized bytes.
#[derive(Clone, Debug, PartialEq, Eq)]
pub struct PublicKeyBytes {
    pub bytes: Vec<u8>,
}

impl View for PublicKeyBytes {
    type V = Seq<u8>;

    open spec fn view(&self) -> Seq<u8> {
        self.bytes@
    }
}

/// A stake amount: an unsigned 512-bit integer, held as eight 64-bit
/// words, least significant first.
#[derive(Clone, Copy, Debug, PartialEq, Eq)]
pub struct StakeAmount {
    pub words: [u64; 8],
}

impl View for StakeAmount {
    type V = Seq<u64>;

    open spec fn view(&self) -> Seq<u64> {
        self.words@
    }
}

impl StakeAmount {
    /// The mathematical value of this amount.
    pub open spec fn value(&self) -> nat {
        crate::values::words_value(self.words@)
    }

    /// An amount equal to the given 64-bit value.
    pub fn from_u64(v: u64) -> (r: StakeAmount)
        ensures
            r.value() == v,
            r@ == seq![v, 0u64, 0u64, 0u64, 0u64, 0u64, 0u64, 0u64],
    {
        let r = StakeAmount { words: [v, 0, 0, 0, 0, 0, 0, 0] };
        proof {
            assert(r.words@ =~= seq![v, 0u64, 0u64, 0u64, 0u64, 0u64, 0u64, 0u64]);
            reveal_with_fuel(crate::values::words_value, 9);
            assert(r.value() == v);
        }
        r
    }
}

/// The staking-subsystem operation a request forwards to.
#[derive(Clone, Copy, Debug, PartialEq, Eq)]
pub enum AuctionMethod {
    Delegate,
    Undelegate,
}

/// The call to make against the staking subsystem: an operation and the
/// three arguments handed through unchanged.
#[derive(Clone, Debug, PartialEq, Eq)]
pub struct AuctionCall {
    pub method: AuctionMethod,
    pub delegator: PublicKeyBytes,
    pub validator: PublicKeyBytes,
    pub amount: StakeAmount,
}

/// The staking subsystem's name for an operation.
pub fn auction_method_name(method: &AuctionMethod) -> (r: String)
    ensures
        method is Delegate ==> r@ == "delegate"@,
        method is Undelegate ==> r@ == "undelegate"@,
{
    match method {
        AuctionMethod::Delegate => String::from_str("delegate"),
        AuctionMethod::Undelegate => String::from_str("undelegate"),
    }
}

/// Builds the auction call that forwards the given operation with the
/// given arguments, all unchanged.
pub fn call_auction(
    method: AuctionMethod,
    delegator: PublicKeyBytes,
    validator: PublicKeyBytes,
    amount: StakeAmount,
) -> (r: AuctionCall)
    ensures
        r.method == method,
        r.delegator == delegator,
        r.validator == validator,
        r.amount == amount,
{
    AuctionCall { method, delegator, validator, amount }
}

/// A delegate request: forwards the three arguments, unchanged, to the
/// staking subsystem's delegate operation.
pub fn delegate(delegator: PublicKeyBytes, validator: PublicKeyBytes, amount: StakeAmount) -> (r:
    AuctionCall)
    ensures
        r.method == AuctionMethod::Delegate,
        r.delegator == delegator,
        r.validator == validator,
        r.amount == amount,
{
    call_auction(AuctionMethod::Delegate, delegator, validator, amount)
}

/// An undelegate request: forwards the three arguments, unchanged, to
/// the staking subsystem's undelegate operation.
pub fn undelegate(delegator: PublicKeyBytes, validator: PublicKeyBytes, amount: StakeAmount) -> (r:
    AuctionCall)
    ensures
        r.method == AuctionMethod::Undelegate,
        r.delegator == delegator,
        r.validator == validator,
        r.amount == amount,
{
    call_auction(AuctionMethod::Undelegate, delegator, validator, amount)
}

} // verus!
