use vstd::prelude::*;
use crate::error::ServiceError;
use crate::network::{NetworkKind, coin_type_of};
use crate::seed::{phrase_is_valid, check_phrase};
use vstd::string::StringExecFns;

verus! {

/// What `bip39::Mnemonic::to_seed` with an empty passphrase gives for a phrase.
pub uninterp spec fn seed_of(phrase: Seq<char>) -> Seq<u8>;

/// What `bitcoin::bip32::Xpriv::new_master` gives for a network and a seed,
/// in its base58 text form; `None` where it fails.
pub uninterp spec fn master_key_of(n: NetworkKind, seed: Seq<u8>) -> Option<Seq<char>>;

/// What `Xpriv::derive_priv` derives from a master key along a path, both
/// parsed from text and the child written in base58 text; `None` where the key
/// or the path does not parse or the derivation fails.
pub uninterp spec fn child_key_of(master: Seq<char>, path: Seq<char>) -> Option<Seq<char>>;

/// Relies on `bip39::Mnemonic::parse` and `Mnemonic::to_seed("")`: the
/// 64-byte BIP-39 seed of a phrase that parses.
#[verifier::external_body]
fn phrase_seed(p: &str) -> (r: [u8; 64])
    requires
        phrase_is_valid(p@),
    ensures
        r@ == seed_of(p@),
{
    match bip39::Mnemonic::parse(p) {
        Ok(m) => m.to_seed(""),
        Err(_) => [0u8; 64],
    }
}

/// Relies on `bitcoin::bip32::Xpriv::new_master` and the key's `Display`.
#[verifier::external_body]
fn master_key(n: NetworkKind, seed: &[u8; 64]) -> (r: Option<String>)
    ensures
        r is Some <==> master_key_of(n, seed@) is Some,
        r matches Some(k) ==> master_key_of(n, seed@) == Some(k@),
{
    let net = match n {
        NetworkKind::Main => bitcoin::Network::Bitcoin,
        NetworkKind::Test => bitcoin::Network::Testnet,
        NetworkKind::Signet => bitcoin::Network::Signet,
        NetworkKind::Regtest => bitcoin::Network::Regtest,
    };
    bitcoin::bip32::Xpriv::new_master(net, seed).ok().map(|k| k.to_string())
}

/// Whether every character is an ASCII letter or digit (as base58 text is).
pub open spec fn is_alnum_text(s: Seq<char>) -> bool {
    forall|i: int|
        0 <= i < s.len() ==> ('0' <= #[trigger] s[i] && s[i] <= '9') || ('A' <= s[i] && s[i]
            <= 'Z') || ('a' <= s[i] && s[i] <= 'z')
}

/// Relies on `bitcoin::bip32::Xpriv::derive_priv`: the key and the path are
/// parsed from text and the derived key is rendered by its `Display`, which
/// is base58 text.
#[verifier::external_body]
fn derive_child_key(master: &str, path: &str) -> (r: Option<String>)
    ensures
        r is Some <==> child_key_of(master@, path@) is Some,
        r matches Some(c) ==> child_key_of(master@, path@) == Some(c@) && is_alnum_text(c@),
{
    let secp = bitcoin::secp256k1::Secp256k1::new();
    let key: bitcoin::bip32::Xpriv = master.parse().ok()?;
    let path: bitcoin::bip32::DerivationPath = path.parse().ok()?;
    key.derive_priv(&secp, &path).ok().map(|child| child.to_string())
}

/// The single-key native segwit descriptor over every normal child of a key:
/// `wpkh(<key>/*)`.
pub open spec fn wpkh_descriptor(key: Seq<char>) -> Seq<char> {
    "wpkh("@ + key + "/*)"@
}

pub fn wpkh_descriptor_of(key: &str) -> (r: String)
    ensures
        r@ == wpkh_descriptor(key@),
{
    let mut d = String::from_str("wpkh(");
    d.append(key);
    d.append("/*)");
    d
}

/// A `wpkh(<key>/*)` descriptor over a plain key text: a single-key native
/// segwit descriptor with a wildcard child.
pub open spec fn is_wpkh_wildcard(d: Seq<char>) -> bool {
    exists|key: Seq<char>| is_alnum_text(key) && d == #[trigger] wpkh_descriptor(key)
}

/// The descriptor of the key derived from a master key along a path.
pub open spec fn descriptor_of(master: Seq<char>, path: Seq<char>) -> Option<Seq<char>> {
    match child_key_of(master, path) {
        Some(c) => Some(wpkh_descriptor(c)),
        None => None,
    }
}

/// Derives the key at a path and writes its descriptor.
fn derive_descriptor(master: &str, path: &str) -> (r: Option<String>)
    ensures
        r is Some <==> descriptor_of(master@, path@) is Some,
        r matches Some(d) ==> descriptor_of(master@, path@) == Some(d@) && is_wpkh_wildcard(d@),
{
    match derive_child_key(master, path) {
        Some(c) => {
            let d = wpkh_descriptor_of(c.as_str());
            assert(is_alnum_text(c@) && d@ == wpkh_descriptor(c@));
            Some(d)
        },
        None => None,
    }
}

/// The BIP-84 path of a keychain: `m/84'/coin'/0'/0` for receiving,
/// `m/84'/coin'/0'/1` for change.
pub open spec fn keychain_path_of(n: NetworkKind, external: bool) -> Seq<char> {
    if coin_type_of(n) == 0 {
        if external {
            "m/84'/0'/0'/0"@
        } else {
            "m/84'/0'/0'/1"@
        }
    } else {
        if external {
            "m/84'/1'/0'/0"@
        } else {
            "m/84'/1'/0'/1"@
        }
    }
}

pub fn keychain_path(n: NetworkKind, external: bool) -> (r: &'static str)
    ensures
        r@ == keychain_path_of(n, external),
{
    match (n, external) {
        (NetworkKind::Main, true) => "m/84'/0'/0'/0",
        (NetworkKind::Main, false) => "m/84'/0'/0'/1",
        (_, true) => "m/84'/1'/0'/0",
        (_, false) => "m/84'/1'/0'/1",
    }
}

/// The descriptor of a keychain for a phrase and network, if every step of
/// the derivation succeeds.
pub open spec fn keychain_descriptor(phrase: Seq<char>, n: NetworkKind, external: bool) -> Option<
    Seq<char>,
> {
    match master_key_of(n, seed_of(phrase)) {
        Some(m) => descriptor_of(m, keychain_path_of(n, external)),
        None => None,
    }
}

/// Derives the receiving and change descriptors of a phrase on a network.
/// `Format` when the phrase does not parse, `Derivation` when a derivation
/// step fails.
pub fn derive_keychains(phrase: &str, n: NetworkKind) -> (r: Result<(String, String), ServiceError>)
    ensures
        !phrase_is_valid(phrase@) ==> r == Err::<(String, String), ServiceError>(
            ServiceError::Format,
        ),
        phrase_is_valid(phrase@) ==> (match r {
            Ok((e, i)) => keychain_descriptor(phrase@, n, true) == Some(e@)
                && keychain_descriptor(phrase@, n, false) == Some(i@) && is_wpkh_wildcard(e@)
                && is_wpkh_wildcard(i@),
            Err(err) => err == ServiceError::Derivation && (keychain_descriptor(
                phrase@,
                n,
                true,
            ) is None || keychain_descriptor(phrase@, n, false) is None),
        }),
{
    if !check_phrase(phrase) {
        return Err(ServiceError::Format);
    }
    let seed = phrase_seed(phrase);
    let master = match master_key(n, &seed) {
        Some(m) => m,
        None => return Err(ServiceError::Derivation),
    };
    let external = match derive_descriptor(master.as_str(), keychain_path(n, true)) {
        Some(d) => d,
        None => return Err(ServiceError::Derivation),
    };
    let internal = match derive_descriptor(master.as_str(), keychain_path(n, false)) {
        Some(d) => d,
        None => return Err(ServiceError::Derivation),
    };
    Ok((external, internal))
}

} // verus!
