//! Hierarchical key derivation: a master key from a seed, and child keys
//! along a five-part path.

use vstd::prelude::*;
use hmac::Mac;
use crate::error::SignerError;
use crate::secp256k1::{
    check_secret_key, compressed_public_key_of, public_key_of, scalar_sum,
    secp256k1_public_key, secp256k1_public_key_compressed, secp256k1_scalar_sum,
    secp256k1_secret_valid,
};
use crate::utils::{array_of, copy_range};

verus! {

/// The bit that marks a path segment as hardened.
pub const HARDENED_BIT: u32 = 0x8000_0000;

/// The HMAC-SHA512 of `data` under `key`, as the `hmac` and `sha2` crates
/// compute it.
pub uninterp spec fn hmac_sha512_code(key: Seq<u8>, data: Seq<u8>) -> Seq<u8>;

/// The five segments that a path text spells, as `zx_bip44` reads it; `None`
/// if it rejects the text.
pub uninterp spec fn bip44_segments(path: Seq<char>) -> Option<Seq<u32>>;

/// Calls `hmac::Mac::new_from_slice`, `update` and `finalize` on
/// `hmac::Hmac<sha2::Sha512>`: the 64-byte authentication code of `data`
/// under `key`. A key of any length is taken.
#[verifier::external_body]
fn hmac_sha512(key: &[u8], data: &[u8]) -> (code: Vec<u8>)
    ensures
        code@ == hmac_sha512_code(key@, data@),
        code@.len() == 64,
{
    let mac = hmac::Hmac::<sha2::Sha512>::new_from_slice(key).map(|m| m.chain_update(data));
    mac.map(|m| m.finalize().into_bytes().to_vec()).unwrap_or_default()
}

/// Calls `zx_bip44::BIP44Path::from_string`: the five segments of a path such
/// as `m/44'/461'/0'/0/0`, each with the hardened bit set where the text has
/// an apostrophe.
#[verifier::external_body]
fn parse_path(path: &str) -> (r: Result<[u32; 5], zx_bip44::errors::BIP44PathError>)
    ensures
        r is Ok <==> bip44_segments(path@) is Some,
        r matches Ok(segments) ==> bip44_segments(path@) == Some(segments@),
{
    zx_bip44::BIP44Path::from_string(path).map(|p| p.0)
}

/// A derivation path of five segments.
#[derive(Debug)]
pub struct Bip44Path(pub [u32; 5]);

impl View for Bip44Path {
    type V = Seq<u32>;

    open spec fn view(&self) -> Seq<u32> {
        self.0@
    }
}

/// Whether the coin-type segment, the second one, is the hardened 1 that
/// stands for test networks.
pub open spec fn path_is_testnet(segments: Seq<u32>) -> bool {
    segments[1] == 0x8000_0001u32
}

impl Bip44Path {
    /// Reads a path from text. Fails exactly when the text is malformed.
    pub fn from_string(path: &str) -> (r: Result<Bip44Path, SignerError>)
        ensures
            r is Ok <==> bip44_segments(path@) is Some,
            r matches Ok(p) ==> bip44_segments(path@) == Some(p@),
            r matches Err(e) ==> e is InvalidPath,
    {
        match parse_path(path) {
            Ok(segments) => Ok(Bip44Path(segments)),
            Err(e) => Err(SignerError::InvalidPath(e)),
        }
    }

    /// Whether the path is one of a test network.
    pub fn is_testnet(&self) -> (testnet: bool)
        ensures
            testnet == path_is_testnet(self@),
    {
        self.0[1] == 0x8000_0001u32
    }
}

/// A private scalar with the chain code that goes with it.
pub struct ExtendedSecretKeyView {
    pub secret_key: Seq<u8>,
    pub chain_code: Seq<u8>,
}

/// The key of the HMAC that turns a seed into a master key.
pub open spec fn master_hmac_key() -> Seq<u8> {
    seq![
        0x42u8, 0x69u8, 0x74u8, 0x63u8, 0x6fu8, 0x69u8, 0x6eu8, 0x20u8, 0x73u8, 0x65u8, 0x65u8,
        0x64u8,
    ]
}

/// The four bytes of a segment, most significant first.
pub open spec fn segment_bytes(index: u32) -> Seq<u8> {
    seq![
        (index >> 24) as u8,
        ((index >> 16) & 0xff) as u8,
        ((index >> 8) & 0xff) as u8,
        (index & 0xff) as u8,
    ]
}

/// The master key of a seed: the two halves of the HMAC of the seed, if the
/// first half is a private scalar.
pub open spec fn master_key(seed: Seq<u8>) -> Option<ExtendedSecretKeyView> {
    let code = hmac_sha512_code(master_hmac_key(), seed);
    if secp256k1_secret_valid(code.subrange(0, 32)) {
        Some(
            ExtendedSecretKeyView {
                secret_key: code.subrange(0, 32),
                chain_code: code.subrange(32, 64),
            },
        )
    } else {
        None
    }
}

/// What is hashed to derive the child `index`: for a hardened segment a zero
/// byte and the parent's private scalar, else the parent's compressed public
/// key; then the four bytes of the segment.
pub open spec fn child_data(parent: ExtendedSecretKeyView, index: u32) -> Seq<u8> {
    if index >= HARDENED_BIT {
        seq![0u8] + parent.secret_key + segment_bytes(index)
    } else {
        secp256k1_public_key_compressed(parent.secret_key) + segment_bytes(index)
    }
}

/// The child `index` of a key: the first half of the HMAC, under the parent's
/// chain code, is added to the parent's scalar, and the second half is the
/// new chain code. There is none if the first half is no scalar or the sum is
/// none: a child's scalar is always one that the curve accepts.
pub open spec fn child_key(parent: ExtendedSecretKeyView, index: u32) -> Option<
    ExtendedSecretKeyView,
> {
    let code = hmac_sha512_code(parent.chain_code, child_data(parent, index));
    if secp256k1_secret_valid(code.subrange(0, 32)) {
        match secp256k1_scalar_sum(code.subrange(0, 32), parent.secret_key) {
            Some(sum) => if secp256k1_secret_valid(sum) {
                Some(ExtendedSecretKeyView { secret_key: sum, chain_code: code.subrange(32, 64) })
            } else {
                None
            },
            None => None,
        }
    } else {
        None
    }
}

/// The key at the end of a path: child after child, from the first segment
/// to the last.
pub open spec fn descendant_key(key: ExtendedSecretKeyView, path: Seq<u32>) -> Option<
    ExtendedSecretKeyView,
>
    decreases path.len(),
{
    if path.len() == 0 {
        Some(key)
    } else {
        match descendant_key(key, path.drop_last()) {
            Some(parent) => child_key(parent, path.last()),
            None => None,
        }
    }
}

/// A private scalar of the curve with its chain code, 32 bytes each.
pub struct ExtendedSecretKey {
    secret_key: Vec<u8>,
    chain_code: Vec<u8>,
}

impl View for ExtendedSecretKey {
    type V = ExtendedSecretKeyView;

    closed spec fn view(&self) -> ExtendedSecretKeyView {
        ExtendedSecretKeyView { secret_key: self.secret_key@, chain_code: self.chain_code@ }
    }
}

impl ExtendedSecretKey {
    #[verifier::type_invariant]
    spec fn well_formed(self) -> bool {
        &&& self.secret_key@.len() == 32
        &&& self.chain_code@.len() == 32
        &&& secp256k1_secret_valid(self.secret_key@)
    }

    /// The master key of a seed. Fails exactly when the seed has none.
    pub fn from_seed(seed: &[u8]) -> (r: Result<ExtendedSecretKey, SignerError>)
        ensures
            r is Ok <==> master_key(seed@) is Some,
            r matches Ok(key) ==> master_key(seed@) == Some(key@),
            r matches Err(e) ==> e is Secp256k1,
    {
        let mut hmac_key: Vec<u8> = Vec::with_capacity(12);
        hmac_key.push(0x42u8);
        hmac_key.push(0x69u8);
        hmac_key.push(0x74u8);
        hmac_key.push(0x63u8);
        hmac_key.push(0x6fu8);
        hmac_key.push(0x69u8);
        hmac_key.push(0x6eu8);
        hmac_key.push(0x20u8);
        hmac_key.push(0x73u8);
        hmac_key.push(0x65u8);
        hmac_key.push(0x65u8);
        hmac_key.push(0x64u8);
        assert(hmac_key@ == master_hmac_key());
        let code = hmac_sha512(hmac_key.as_slice(), seed);
        let secret_key = copy_range(code.as_slice(), 0, 32);
        let chain_code = copy_range(code.as_slice(), 32, 64);
        match check_secret_key(secret_key.as_slice()) {
            Ok(()) => Ok(ExtendedSecretKey { secret_key, chain_code }),
            Err(e) => Err(SignerError::Secp256k1(e)),
        }
    }

    /// The child of this key at one segment. Fails exactly when there is
    /// none.
    pub fn derive_child(&self, index: u32) -> (r: Result<ExtendedSecretKey, SignerError>)
        ensures
            r is Ok <==> child_key(self@, index) is Some,
            r matches Ok(key) ==> child_key(self@, index) == Some(key@),
            r matches Err(e) ==> e is Secp256k1,
    {
        proof {
            use_type_invariant(self);
        }
        let mut data: Vec<u8> = Vec::new();
        if index >= HARDENED_BIT {
            data.push(0u8);
            data.extend_from_slice(self.secret_key.as_slice());
        } else {
            match compressed_public_key_of(self.secret_key.as_slice()) {
                Ok(key) => {
                    data.extend_from_slice(key.as_slice());
                },
                Err(e) => {
                    return Err(SignerError::Secp256k1(e));
                },
            }
        }
        let ghost head = data@;
        assert((index >> 24) < 256 && ((index >> 16) & 0xff) < 256 && ((index >> 8) & 0xff) < 256
            && (index & 0xff) < 256) by (bit_vector);
        data.push((index >> 24) as u8);
        data.push(((index >> 16) & 0xff) as u8);
        data.push(((index >> 8) & 0xff) as u8);
        data.push((index & 0xff) as u8);
        assert(data@ == head + segment_bytes(index));
        assert(data@ == child_data(self@, index));
        let code = hmac_sha512(self.chain_code.as_slice(), data.as_slice());
        let tweak = copy_range(code.as_slice(), 0, 32);
        let chain_code = copy_range(code.as_slice(), 32, 64);
        match scalar_sum(tweak.as_slice(), self.secret_key.as_slice()) {
            Ok(secret_key) => Ok(ExtendedSecretKey { secret_key, chain_code }),
            Err(e) => Err(SignerError::Secp256k1(e)),
        }
    }

    /// The key at the end of a path. Fails exactly when there is none.
    pub fn derive_bip44(&self, path: &Bip44Path) -> (r: Result<ExtendedSecretKey, SignerError>)
        ensures
            r is Ok <==> descendant_key(self@, path@) is Some,
            r matches Ok(key) ==> descendant_key(self@, path@) == Some(key@),
            r matches Err(e) ==> e is Secp256k1,
    {
        let mut key = self.duplicate();
        let mut i: usize = 0;
        assert(path@.take(0) == Seq::<u32>::empty());
        while i < 5
            invariant
                i <= 5,
                path@.len() == 5,
                descendant_key(self@, path@.take(i as int)) == Some(key@),
            decreases 5 - i,
        {
            proof {
                assert(path@.take(i + 1).drop_last() == path@.take(i as int));
                assert(path@.take(i + 1).last() == path@[i as int]);
            }
            match key.derive_child(path.0[i]) {
                Ok(child) => {
                    key = child;
                },
                Err(e) => {
                    proof {
                        lemma_descendant_none(self@, path@.take(i + 1), path@, (i + 1) as int);
                    }
                    return Err(e);
                },
            }
            i = i + 1;
        }
        assert(path@.take(5) == path@);
        Ok(key)
    }

    /// The private scalar.
    pub fn secret_key(&self) -> (key: [u8; 32])
        ensures
            key@ == self@.secret_key,
            secp256k1_secret_valid(key@),
    {
        proof {
            use_type_invariant(self);
        }
        array_of::<32>(self.secret_key.as_slice())
    }

    /// The uncompressed public key of the private scalar.
    pub fn public_key(&self) -> (r: Result<[u8; 65], SignerError>)
        ensures
            r matches Ok(key) && key@ == secp256k1_public_key(self@.secret_key),
    {
        proof {
            use_type_invariant(self);
        }
        match public_key_of(self.secret_key.as_slice()) {
            Ok(key) => Ok(array_of::<65>(key.as_slice())),
            Err(e) => Err(SignerError::Secp256k1(e)),
        }
    }

    /// A copy of this key.
    pub fn duplicate(&self) -> (key: ExtendedSecretKey)
        ensures
            key@ == self@,
    {
        proof {
            use_type_invariant(self);
        }
        ExtendedSecretKey {
            secret_key: self.secret_key.clone(),
            chain_code: self.chain_code.clone(),
        }
    }
}

/// Where a path has no key after its first `n` segments, it has none at its
/// end.
pub proof fn lemma_descendant_none(
    key: ExtendedSecretKeyView,
    prefix: Seq<u32>,
    path: Seq<u32>,
    n: int,
)
    requires
        0 <= n <= path.len(),
        prefix == path.take(n),
        descendant_key(key, prefix) is None,
    ensures
        descendant_key(key, path) is None,
    decreases path.len() - n,
{
    if n < path.len() {
        let next = path.take(n + 1);
        assert(next.drop_last() == prefix);
        lemma_descendant_none(key, next, path, n + 1);
    } else {
        assert(path.take(n) == path);
    }
}

/// Every key that derivation reaches from a key with a scalar of the curve
/// has a scalar of the curve.
pub proof fn lemma_descendant_is_valid(key: ExtendedSecretKeyView, path: Seq<u32>)
    requires
        secp256k1_secret_valid(key.secret_key),
    ensures
        descendant_key(key, path) matches Some(end) ==> secp256k1_secret_valid(end.secret_key),
    decreases path.len(),
{
    if path.len() > 0 {
        lemma_descendant_is_valid(key, path.drop_last());
    }
}

} // verus!
