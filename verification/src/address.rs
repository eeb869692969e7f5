//! The default addresses of an account, derived from its viewing key.
use vstd::prelude::*;
use crate::accounts::{account_address, VAccountAddress};
use crate::create::WalletNetwork;

verus! {

/// What the default address of an encoded unified incoming viewing key is on
/// a network, as `zcash_keys` derives and encodes it: the encoded unified
/// address and, where it has a transparent receiver, that receiver's
/// encoding; nothing where the key does not decode for the network or yields
/// no address.
pub uninterp spec fn default_address_texts(network: WalletNetwork, uivk: Seq<char>) -> Option<(Seq<char>, Option<Seq<char>>)>;

/// The view of an optional text.
pub open spec fn option_text(t: Option<String>) -> Option<Seq<char>> {
    match t {
        Some(s) => Some(s@),
        None => None,
    }
}

/// Derives the default address of a viewing key: decodes the key with
/// `UnifiedIncomingViewingKey::decode`, takes its `default_address` for all
/// available receivers, and encodes the address and its transparent
/// receiver.
///
/// Claimed: the texts are a function of the network and the key encoding
/// alone (`default_address_texts`).
#[verifier::external_body]
fn derive_default_address(network: WalletNetwork, uivk: &str) -> (r: Result<(String, Option<String>), ()>)
    ensures
        r matches Ok(pair) ==> default_address_texts(network, uivk@) == Some((pair.0@, option_text(pair.1))),
        r is Err ==> default_address_texts(network, uivk@) is None,
{
    let params = match network {
        WalletNetwork::Main => zcash_protocol::consensus::Network::MainNetwork,
        WalletNetwork::Test => zcash_protocol::consensus::Network::TestNetwork,
    };
    let key = zcash_keys::keys::UnifiedIncomingViewingKey::decode(&params, uivk).map_err(|_| ())?;
    let (ua, _) = key.default_address(zcash_keys::keys::UnifiedAddressRequest::AllAvailableKeys).map_err(|_| ())?;
    let transparent = match ua.transparent() {
        Some(t) => Some(zcash_keys::encoding::encode_transparent_address_p(&params, t)),
        None => None,
    };
    Ok((ua.encode(&params), transparent))
}

/// Why an account has no default address to show.
#[derive(Clone, Copy, Debug, PartialEq, Eq, Structural)]
pub enum AddressError {
    /// The viewing key does not decode for the network, or yields no address.
    NoDefaultAddress,
}

/// The default addresses of an account, from its encoded unified incoming
/// viewing key: its unified address and the transparent address within it.
///
/// Gives `None` where the default address has no transparent receiver: the
/// wallet shows both addresses and stops there (it `unwrap`s the receiver).
pub fn get_address(network: WalletNetwork, uivk: &str) -> (r: Option<Result<VAccountAddress, AddressError>>)
    ensures
        default_address_texts(network, uivk@) is None ==> r == Some(Err::<VAccountAddress, AddressError>(AddressError::NoDefaultAddress)),
        default_address_texts(network, uivk@) matches Some(pair) ==> (pair.1 is None ==> r is None) && (pair.1 matches Some(t) ==> (r matches Some(Ok(a)) && a.u_address@ == pair.0 && a.t_address@ == t)),
{
    match derive_default_address(network, uivk) {
        Err(_) => Some(Err(AddressError::NoDefaultAddress)),
        Ok((unified, transparent)) => match transparent {
            Some(t) => Some(Ok(account_address(unified, t))),
            None => None,
        },
    }
}

} // verus!
