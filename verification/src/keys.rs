//! Keys: private scalars, public keys of both schemes, and the key pair with
//! its address that derivation and recovery hand out.

use vstd::prelude::*;
use crate::address::{
    bls_address_bytes, secp256k1_address_bytes, Address, AddressView, Network,
};
use crate::bls::{bls_public_key, bls_secret_valid};
use crate::codec::{base64_bytes, base64_decode};
use crate::error::SignerError;
use crate::extended_key::{
    bip44_segments, descendant_key, lemma_descendant_is_valid, master_key, path_is_testnet,
    Bip44Path, ExtendedSecretKey, ExtendedSecretKeyView,
};
use crate::message::network_of;
use crate::secp256k1::{secp256k1_public_key, secp256k1_secret_valid};
use crate::utils::{array_of, vec_of};

verus! {

/// A mnemonic phrase.
#[derive(Debug)]
pub struct Mnemonic(pub String);

/// A private scalar of either scheme: 32 bytes.
#[derive(Debug)]
pub struct PrivateKey(pub [u8; 32]);

/// A compressed elliptic-curve public key: 33 bytes.
#[derive(Debug)]
pub struct PublicKeyCompressed(pub [u8; 33]);

/// A public key of one of the two schemes, in its serialized form.
#[derive(Debug)]
pub enum PublicKey {
    /// An uncompressed elliptic-curve point.
    SECP256K1PublicKey([u8; 65]),
    /// A compressed group element of the pairing scheme.
    BLSPublicKey([u8; 48]),
}

impl View for PrivateKey {
    type V = Seq<u8>;

    open spec fn view(&self) -> Seq<u8> {
        self.0@
    }
}

impl TryFrom<Vec<u8>> for PrivateKey {
    type Error = SignerError;

    /// The private key made of exactly these 32 bytes.
    fn try_from(v: Vec<u8>) -> (r: Result<PrivateKey, SignerError>)
        ensures
            r is Ok <==> v@.len() == 32,
            r matches Ok(key) ==> key@ == v@,
            r matches Err(e) ==> e is InvalidLength,
    {
        if v.len() != 32 {
            return Err(SignerError::InvalidLength);
        }
        let a = array_of::<32>(v.as_slice());
        assert(a == (choose|b: [u8; 32]| b@ == v@)) by {
            let b = choose|b: [u8; 32]| b@ == v@;
            assert(a@ == v@);
            assert(b@ == v@);
            assert(a@ =~= b@);
        }
        Ok(PrivateKey(a))
    }
}

impl vstd::std_specs::convert::TryFromSpecImpl<Vec<u8>> for PrivateKey {
    open spec fn obeys_try_from_spec() -> bool {
        true
    }

    open spec fn try_from_spec(v: Vec<u8>) -> Result<Self, SignerError> {
        if v@.len() == 32 {
            Ok(PrivateKey(choose|a: [u8; 32]| a@ == v@))
        } else {
            Err(SignerError::InvalidLength)
        }
    }
}

impl TryFrom<String> for PrivateKey {
    type Error = SignerError;

    /// The private key that a base64 text holds. Fails when the text is not
    /// base64, and when it does not stand for exactly 32 bytes.
    fn try_from(s: String) -> (r: Result<PrivateKey, SignerError>)
        ensures
            r is Ok <==> (base64_bytes(s@) matches Some(bytes) && bytes.len() == 32),
            r matches Ok(key) ==> base64_bytes(s@) == Some(key@),
            r matches Err(e) ==> (if base64_bytes(s@) is None {
                e is Base64
            } else {
                e is InvalidLength
            }),
    {
        match base64_decode(s.as_str()) {
            Ok(v) => PrivateKey::try_from(v),
            Err(e) => Err(SignerError::Base64(e)),
        }
    }
}

impl vstd::std_specs::convert::TryFromSpecImpl<String> for PrivateKey {
    open spec fn obeys_try_from_spec() -> bool {
        false
    }

    open spec fn try_from_spec(s: String) -> Result<Self, SignerError> {
        Err(SignerError::InvalidLength)
    }
}

/// What a public key is, as a mathematical value.
pub enum PublicKeyView {
    SECP256K1PublicKey(Seq<u8>),
    BLSPublicKey(Seq<u8>),
}

impl PublicKeyView {
    /// The serialized key.
    pub open spec fn bytes(self) -> Seq<u8> {
        match self {
            PublicKeyView::SECP256K1PublicKey(key) => key,
            PublicKeyView::BLSPublicKey(key) => key,
        }
    }
}

impl View for PublicKey {
    type V = PublicKeyView;

    open spec fn view(&self) -> PublicKeyView {
        match self {
            PublicKey::SECP256K1PublicKey(key) => PublicKeyView::SECP256K1PublicKey(key@),
            PublicKey::BLSPublicKey(key) => PublicKeyView::BLSPublicKey(key@),
        }
    }
}

impl PublicKey {

    /// The serialized key: 65 bytes for an elliptic-curve key, 48 for a key of
    /// the pairing scheme.
    pub fn to_vec(&self) -> (bytes: Vec<u8>)
        ensures
            bytes@ == self@.bytes(),
            self is SECP256K1PublicKey ==> bytes@.len() == 65,
            self is BLSPublicKey ==> bytes@.len() == 48,
    {
        match self {
            PublicKey::SECP256K1PublicKey(key) => vec_of::<65>(key),
            PublicKey::BLSPublicKey(key) => vec_of::<48>(key),
        }
    }
}

/// A key pair with the text of its address.
#[derive(Debug)]
pub struct ExtendedKey {
    pub private_key: PrivateKey,
    pub public_key: PublicKey,
    pub address: String,
}

/// What a key pair with its address is, as a mathematical value.
pub struct ExtendedKeyView {
    pub private_key: Seq<u8>,
    pub public_key: PublicKeyView,
    pub address: Seq<char>,
}

impl View for ExtendedKey {
    type V = ExtendedKeyView;

    open spec fn view(&self) -> ExtendedKeyView {
        ExtendedKeyView {
            private_key: self.private_key@,
            public_key: self.public_key@,
            address: self.address@,
        }
    }
}

/// Whether `tiny-bip39` knows a word list for the language code.
pub uninterp spec fn bip39_language_known(code: Seq<char>) -> bool;

/// The 64-byte seed of a mnemonic phrase in the language `code`, stretched
/// with `password`, as `tiny-bip39` computes it; `None` if the phrase fails
/// validation against the word list.
pub uninterp spec fn bip39_seed(phrase: Seq<char>, code: Seq<char>, password: Seq<char>) -> Option<
    Seq<u8>,
>;

/// Calls `bip39::Language::from_language_code`, which knows `en` among
/// others.
#[verifier::external_body]
fn language_known(code: &str) -> (known: bool)
    ensures
        known == bip39_language_known(code@),
        code@ == "en"@ ==> known,
{
    bip39::Language::from_language_code(code).is_some()
}

/// Calls `bip39::Language::from_language_code`, `Mnemonic::from_phrase` and
/// `Seed::new`: the seed of a phrase. Fails exactly when the phrase is
/// rejected, with the reason as text.
#[verifier::external_body]
fn mnemonic_seed(phrase: &str, code: &str, password: &str) -> (r: Result<Vec<u8>, String>)
    requires
        bip39_language_known(code@),
    ensures
        r is Ok <==> bip39_seed(phrase@, code@, password@) is Some,
        r matches Ok(seed) ==> bip39_seed(phrase@, code@, password@) == Some(seed@),
{
    let language = bip39::Language::from_language_code(code).unwrap_or_default();
    let mnemonic = bip39::Mnemonic::from_phrase(phrase, language).map_err(|e| e.to_string())?;
    Ok(bip39::Seed::new(&mnemonic, password).as_bytes().to_vec())
}

/// The number of words of a phrase whose words are set apart by single
/// spaces.
pub open spec fn word_count(phrase: Seq<char>) -> nat {
    phrase.filter(|c: char| c == ' ').len() + 1
}

/// Calls `bip39::Language::from_language_code`,
/// `MnemonicType::for_word_count` and `Mnemonic::new`: a fresh phrase of
/// `words` words from the system's random source. There is none exactly when
/// the language is unknown or the number of words is not 12, 15, 18, 21 or
/// 24. The phrase is made of `words` words of the word list, joined by single
/// spaces, with the checksum that `Mnemonic::from_phrase` asks for: the crate
/// makes no mnemonic that it would not take back.
#[verifier::external_body]
fn random_phrase(words: usize, code: &str) -> (r: Option<String>)
    ensures
        r is Some <==> (bip39_language_known(code@) && (words == 12 || words == 15 || words == 18
            || words == 21 || words == 24)),
        r matches Some(phrase) ==> word_count(phrase@) == words,
        r matches Some(phrase) ==> (forall|password: Seq<char>| #[trigger]
            bip39_seed(phrase@, code@, password) is Some),
{
    let language = bip39::Language::from_language_code(code)?;
    let kind = bip39::MnemonicType::for_word_count(words).ok()?;
    Some(bip39::Mnemonic::new(kind, language).into_phrase())
}

/// The key pair of an elliptic-curve private scalar on a network: the
/// address commits to a hash of the public key.
pub open spec fn secp256k1_extended_key(secret: Seq<u8>, network: Network) -> ExtendedKeyView {
    let public_key = secp256k1_public_key(secret);
    ExtendedKeyView {
        private_key: secret,
        public_key: PublicKeyView::SECP256K1PublicKey(public_key),
        address: (AddressView { network, bytes: secp256k1_address_bytes(public_key) }).text(),
    }
}

/// The key pair of a pairing-scheme private scalar on a network: the address
/// holds the whole public key.
pub open spec fn bls_extended_key(secret: Seq<u8>, network: Network) -> ExtendedKeyView {
    let public_key = bls_public_key(secret);
    ExtendedKeyView {
        private_key: secret,
        public_key: PublicKeyView::BLSPublicKey(public_key),
        address: (AddressView { network, bytes: bls_address_bytes(public_key) }).text(),
    }
}

/// The network that a path derives keys for.
pub open spec fn path_network(segments: Seq<u32>) -> Network {
    network_of(path_is_testnet(segments))
}

/// The key at the end of the path `path` under the master key of `seed`, if
/// the seed has a master key, the path is well formed and every child on the
/// way exists.
pub open spec fn derived_secret_key(seed: Seq<u8>, path: Seq<char>) -> Option<
    ExtendedSecretKeyView,
> {
    match (master_key(seed), bip44_segments(path)) {
        (Some(master), Some(segments)) => descendant_key(master, segments),
        _ => None,
    }
}

/// The key pair that a seed and a path derive.
pub open spec fn derived_extended_key(seed: Seq<u8>, path: Seq<char>) -> Option<ExtendedKeyView> {
    match derived_secret_key(seed, path) {
        Some(key) => Some(
            secp256k1_extended_key(key.secret_key, path_network(bip44_segments(path).unwrap())),
        ),
        None => None,
    }
}

/// The key that a mnemonic, a path and a password derive: the mnemonic is
/// stretched into a seed, and the seed derives the key.
pub open spec fn mnemonic_secret_key(
    mnemonic: Seq<char>,
    path: Seq<char>,
    password: Seq<char>,
    code: Seq<char>,
) -> Option<ExtendedSecretKeyView> {
    if bip39_language_known(code) {
        match bip39_seed(mnemonic, code, password) {
            Some(seed) => derived_secret_key(seed, path),
            None => None,
        }
    } else {
        None
    }
}

/// The key pair that a mnemonic, a path and a password derive.
pub open spec fn mnemonic_extended_key(
    mnemonic: Seq<char>,
    path: Seq<char>,
    password: Seq<char>,
    code: Seq<char>,
) -> Option<ExtendedKeyView> {
    if bip39_language_known(code) {
        match bip39_seed(mnemonic, code, password) {
            Some(seed) => derived_extended_key(seed, path),
            None => None,
        }
    } else {
        None
    }
}

/// A fresh random mnemonic of 24 English words, which validates against the
/// English word list. Which words they are is left to the random source.
pub fn key_generate_mnemonic() -> (r: Result<Mnemonic, SignerError>)
    ensures
        r matches Ok(mnemonic) && word_count(mnemonic.0@) == 24 && (forall|password: Seq<char>|
         #[trigger] bip39_seed(mnemonic.0@, "en"@, password) is Some),
{
    let known = language_known("en");
    match random_phrase(24, "en") {
        Some(phrase) => Ok(Mnemonic(phrase)),
        None => Err(SignerError::UnsupportedLanguage),
    }
}

/// The key at the end of `path` under the master key of `seed`. The master
/// key is made first, then the path is read, then the children are derived.
pub fn derive_extended_secret_key(seed: &[u8], path: &str) -> (r: Result<
    ExtendedSecretKey,
    SignerError,
>)
    ensures
        r is Ok <==> derived_secret_key(seed@, path@) is Some,
        r matches Ok(key) ==> derived_secret_key(seed@, path@) == Some(key@),
        r matches Err(e) ==> (if master_key(seed@) is Some && bip44_segments(path@) is None {
            e is InvalidPath
        } else {
            e is Secp256k1
        }),
{
    let master = ExtendedSecretKey::from_seed(seed)?;
    let bip44_path = Bip44Path::from_string(path)?;
    master.derive_bip44(&bip44_path)
}

/// The key that a mnemonic, a path and a password derive. The language is
/// looked up first, then the mnemonic is validated and stretched into a seed,
/// then the key is derived from the seed.
pub fn derive_extended_secret_key_from_mnemonic(
    mnemonic: &str,
    path: &str,
    password: &str,
    language_code: &str,
) -> (r: Result<ExtendedSecretKey, SignerError>)
    ensures
        r is Ok <==> mnemonic_secret_key(mnemonic@, path@, password@, language_code@) is Some,
        r matches Ok(key) ==> mnemonic_secret_key(mnemonic@, path@, password@, language_code@)
            == Some(key@),
        r matches Err(e) ==> (if !bip39_language_known(language_code@) {
            e is UnsupportedLanguage
        } else if bip39_seed(mnemonic@, language_code@, password@) is None {
            e is InvalidMnemonic
        } else if master_key(bip39_seed(mnemonic@, language_code@, password@).unwrap()) is Some
            && bip44_segments(path@) is None {
            e is InvalidPath
        } else {
            e is Secp256k1
        }),
{
    if !language_known(language_code) {
        return Err(SignerError::UnsupportedLanguage);
    }
    match mnemonic_seed(mnemonic, language_code, password) {
        Ok(seed) => derive_extended_secret_key(seed.as_slice(), path),
        Err(reason) => Err(SignerError::InvalidMnemonic(reason)),
    }
}

/// The key pair of a derived key, with the address written for the network
/// of the path.
fn extended_key_of(esk: &ExtendedSecretKey, path: &str) -> (r: Result<ExtendedKey, SignerError>)
    requires
        bip44_segments(path@) is Some,
    ensures
        r matches Ok(key) && key@ == secp256k1_extended_key(
            esk@.secret_key,
            path_network(bip44_segments(path@).unwrap()),
        ) && secp256k1_secret_valid(key@.private_key),
{
    let public_key = esk.public_key()?;
    let mut address = Address::new_secp256k1(Network::Mainnet, public_key.as_slice())?;
    let bip44_path = Bip44Path::from_string(path)?;
    if bip44_path.is_testnet() {
        address.set_network(Network::Testnet);
    }
    Ok(
        ExtendedKey {
            private_key: PrivateKey(esk.secret_key()),
            public_key: PublicKey::SECP256K1PublicKey(public_key),
            address: address.to_string(),
        },
    )
}

/// Derives a key pair and its address from a mnemonic, a path and a password
/// (the empty text for none). The network of the address is that of the
/// path's coin type. The private scalar is one that the curve accepts, so
/// that `key_recover` takes it.
pub fn key_derive(mnemonic: &str, path: &str, password: &str, language_code: &str) -> (r: Result<
    ExtendedKey,
    SignerError,
>)
    ensures
        r is Ok <==> mnemonic_extended_key(mnemonic@, path@, password@, language_code@) is Some,
        r matches Ok(key) ==> mnemonic_extended_key(mnemonic@, path@, password@, language_code@)
            == Some(key@),
        r matches Ok(key) ==> secp256k1_secret_valid(key@.private_key),
        r matches Err(e) ==> (if !bip39_language_known(language_code@) {
            e is UnsupportedLanguage
        } else if bip39_seed(mnemonic@, language_code@, password@) is None {
            e is InvalidMnemonic
        } else if master_key(bip39_seed(mnemonic@, language_code@, password@).unwrap()) is Some
            && bip44_segments(path@) is None {
            e is InvalidPath
        } else {
            e is Secp256k1
        }),
{
    let esk = derive_extended_secret_key_from_mnemonic(mnemonic, path, password, language_code)?;
    extended_key_of(&esk, path)
}

/// Derives a key pair and its address from a raw seed and a path. The
/// private scalar is one that the curve accepts, so that `key_recover` takes
/// it.
pub fn key_derive_from_seed(seed: &[u8], path: &str) -> (r: Result<ExtendedKey, SignerError>)
    ensures
        r is Ok <==> derived_extended_key(seed@, path@) is Some,
        r matches Ok(key) ==> derived_extended_key(seed@, path@) == Some(key@),
        r matches Ok(key) ==> secp256k1_secret_valid(key@.private_key),
        r matches Err(e) ==> (if master_key(seed@) is Some && bip44_segments(path@) is None {
            e is InvalidPath
        } else {
            e is Secp256k1
        }),
{
    let esk = derive_extended_secret_key(seed, path)?;
    extended_key_of(&esk, path)
}

/// The key pair and address of an elliptic-curve private scalar, with no
/// derivation. Fails exactly when the scalar is rejected.
pub fn key_recover(private_key: &PrivateKey, testnet: bool) -> (r: Result<ExtendedKey, SignerError>)
    ensures
        r is Ok <==> secp256k1_secret_valid(private_key@),
        r matches Ok(key) ==> key@ == secp256k1_extended_key(private_key@, network_of(testnet)),
        r matches Err(e) ==> e is Secp256k1,
{
    let secret = vec_of::<32>(&private_key.0);
    let public_key = match crate::secp256k1::public_key_of(secret.as_slice()) {
        Ok(key) => key,
        Err(e) => {
            return Err(SignerError::Secp256k1(e));
        },
    };
    let mut address = Address::new_secp256k1(Network::Mainnet, public_key.as_slice())?;
    if testnet {
        address.set_network(Network::Testnet);
    } else {
        address.set_network(Network::Mainnet);
    }
    Ok(
        ExtendedKey {
            private_key: PrivateKey(array_of::<32>(secret.as_slice())),
            public_key: PublicKey::SECP256K1PublicKey(array_of::<65>(public_key.as_slice())),
            address: address.to_string(),
        },
    )
}

/// The key pair and address of a pairing-scheme private scalar, with no
/// derivation. Fails exactly when the scalar is rejected.
pub fn key_recover_bls(private_key: &PrivateKey, testnet: bool) -> (r: Result<
    ExtendedKey,
    SignerError,
>)
    ensures
        r is Ok <==> bls_secret_valid(private_key@),
        r matches Ok(key) ==> key@ == bls_extended_key(private_key@, network_of(testnet)),
        r matches Err(e) ==> e is Bls,
{
    let secret = vec_of::<32>(&private_key.0);
    let public_key = match crate::bls::public_key_of(secret.as_slice()) {
        Ok(key) => key,
        Err(e) => {
            return Err(SignerError::Bls(e));
        },
    };
    let mut address = Address::new_bls(Network::Mainnet, public_key.as_slice())?;
    if testnet {
        address.set_network(Network::Testnet);
    } else {
        address.set_network(Network::Mainnet);
    }
    Ok(
        ExtendedKey {
            private_key: PrivateKey(array_of::<32>(secret.as_slice())),
            public_key: PublicKey::BLSPublicKey(array_of::<48>(public_key.as_slice())),
            address: address.to_string(),
        },
    )
}

/// Derivation and recovery agree. The private scalar of a derived key pair
/// is one that the curve accepts, and the key pair of that scalar, on the
/// network of the path, is the derived key pair itself: recovering from a
/// derived private key gives back the same keys and the same address.
pub proof fn lemma_recover_agrees_with_derive(seed: Seq<u8>, path: Seq<char>)
    ensures
        derived_extended_key(seed, path) matches Some(key) ==> secp256k1_secret_valid(
            key.private_key,
        ) && secp256k1_extended_key(
            key.private_key,
            network_of(path_is_testnet(bip44_segments(path).unwrap())),
        ) == key,
{
    if derived_extended_key(seed, path) is Some {
        let master = master_key(seed).unwrap();
        lemma_descendant_is_valid(master, bip44_segments(path).unwrap());
    }
}

/// The same for a key pair derived from a mnemonic.
pub proof fn lemma_recover_agrees_with_mnemonic(
    mnemonic: Seq<char>,
    path: Seq<char>,
    password: Seq<char>,
    code: Seq<char>,
)
    ensures
        mnemonic_extended_key(mnemonic, path, password, code) matches Some(key)
            ==> secp256k1_secret_valid(key.private_key) && secp256k1_extended_key(
            key.private_key,
            network_of(path_is_testnet(bip44_segments(path).unwrap())),
        ) == key,
{
    if mnemonic_extended_key(mnemonic, path, password, code) is Some {
        lemma_recover_agrees_with_derive(bip39_seed(mnemonic, code, password).unwrap(), path);
    }
}

} // verus!
