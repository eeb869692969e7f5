use zcash_keys::keys::UnifiedSpendingKey;
use zcash_protocol::consensus::Network;
use zwallet::address::{get_address, AddressError};
use zwallet::create::WalletNetwork;

fn test_uivk(params: &Network) -> String {
    let seed = [7u8; 32];
    let usk = UnifiedSpendingKey::from_seed(params, &seed, 0u32.try_into().unwrap()).unwrap();
    usk.to_unified_full_viewing_key().to_unified_incoming_viewing_key().encode(params).unwrap()
}

#[test]
fn default_address_of_a_testnet_key() {
    let uivk = test_uivk(&Network::TestNetwork);
    let a = get_address(WalletNetwork::Test, &uivk).unwrap().unwrap();
    assert!(a.u_address.starts_with("utest1"));
    assert!(a.t_address.starts_with("tm"));
    let t: zcash_address::ZcashAddress = a.t_address.parse().unwrap();
    assert!(t.is_transparent_only());
    let u: zcash_address::ZcashAddress = a.u_address.parse().unwrap();
    assert!(u.can_receive_memo());
}

#[test]
fn default_address_is_the_same_each_time() {
    let uivk = test_uivk(&Network::MainNetwork);
    let a = get_address(WalletNetwork::Main, &uivk).unwrap().unwrap();
    let b = get_address(WalletNetwork::Main, &uivk).unwrap().unwrap();
    assert_eq!(a.u_address, b.u_address);
    assert_eq!(a.t_address, b.t_address);
    assert!(a.u_address.starts_with("u1"));
    assert!(a.t_address.starts_with("t1"));
}

#[test]
fn key_of_another_network_has_no_address() {
    let uivk = test_uivk(&Network::MainNetwork);
    assert!(matches!(get_address(WalletNetwork::Test, &uivk), Some(Err(AddressError::NoDefaultAddress))));
}

#[test]
fn undecodable_key_has_no_address() {
    assert!(matches!(get_address(WalletNetwork::Main, "uivk1nonsense"), Some(Err(AddressError::NoDefaultAddress))));
}
