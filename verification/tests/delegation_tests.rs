use grant_relay::delegation::auction_method_name;
use grant_relay::delegation::delegate;
use grant_relay::delegation::undelegate;
use grant_relay::delegation::AuctionMethod;
use grant_relay::delegation::PublicKeyBytes;
use grant_relay::delegation::StakeAmount;

fn key(byte: u8) -> PublicKeyBytes {
    PublicKeyBytes { bytes: vec![byte; 33] }
}

#[test]
fn delegate_forwards_the_three_arguments() {
    let call = delegate(key(1), key(2), StakeAmount::from_u64(900));
    assert_eq!(call.method, AuctionMethod::Delegate);
    assert_eq!(call.delegator, key(1));
    assert_eq!(call.validator, key(2));
    assert_eq!(call.amount, StakeAmount::from_u64(900));
    assert_eq!(call.amount.words, [900, 0, 0, 0, 0, 0, 0, 0]);
}

#[test]
fn undelegate_forwards_the_three_arguments() {
    let call = undelegate(key(3), key(4), StakeAmount::from_u64(50));
    assert_eq!(call.method, AuctionMethod::Undelegate);
    assert_eq!(call.delegator, key(3));
    assert_eq!(call.validator, key(4));
    assert_eq!(call.amount, StakeAmount::from_u64(50));
}

#[test]
fn auction_method_names_match_the_subsystem() {
    assert_eq!(auction_method_name(&AuctionMethod::Delegate), "delegate");
    assert_eq!(auction_method_name(&AuctionMethod::Undelegate), "undelegate");
}
