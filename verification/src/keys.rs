//! Base58 key codec: 32-byte identifiers and ed25519 signing keypairs.

use vstd::prelude::*;

use crate::error::{BuilderError, HashField};
use solana_sdk::bs58;
use solana_sdk::signer::keypair::Keypair as SdkKeypair;
use solana_sdk::signer::Signer as SdkSigner;

verus! {

/// What `bs58::decode` yields for a string: `None` exactly when the string is
/// not valid base58.
pub uninterp spec fn base58_decode_of(s: Seq<char>) -> Option<Seq<u8>>;

/// Whether a byte string is a valid 64-byte ed25519 keypair encoding: a secret
/// seed followed by the public key derived from it.
pub uninterp spec fn ed25519_valid_keypair(b: Seq<u8>) -> bool;

/// A 32-byte account, program or hash identifier. Equality is byte-exact.
#[derive(Debug)]
pub struct Identifier {
    pub bytes: Vec<u8>,
}

impl View for Identifier {
    type V = Seq<u8>;

    open spec fn view(&self) -> Seq<u8> {
        self.bytes@
    }
}

impl DeepView for Identifier {
    type V = Seq<u8>;

    open spec fn deep_view(&self) -> Seq<u8> {
        self.bytes@
    }
}

impl Identifier {
    /// Exactly 32 bytes.
    pub open spec fn wf(&self) -> bool {
        self.bytes@.len() == 32
    }

    /// Wraps a byte vector that must hold exactly 32 bytes.
    pub fn from_bytes(bytes: Vec<u8>) -> (r: Result<Identifier, BuilderError>)
        ensures
            bytes@.len() == 32 ==> (r matches Ok(id) && id.wf() && id@ == bytes@),
            bytes@.len() != 32 ==> r == Err::<Identifier, BuilderError>(
                BuilderError::InvalidKeyLength,
            ),
    {
        if bytes.len() == 32 {
            Ok(Identifier { bytes })
        } else {
            Err(BuilderError::InvalidKeyLength)
        }
    }

    /// A byte-for-byte copy.
    pub fn dup(&self) -> (r: Identifier)
        ensures
            r@ == self@,
    {
        let bytes = self.bytes.clone();
        assert(bytes@ =~= self.bytes@);
        Identifier { bytes }
    }

    /// Whether this identifier holds the same bytes as another.
    pub fn eq_bytes(&self, other: &Identifier) -> (r: bool)
        ensures
            r == (self@ == other@),
    {
        if self.bytes.len() != other.bytes.len() {
            return false;
        }
        let n = self.bytes.len();
        for i in 0..n
            invariant
                n == self.bytes@.len(),
                n == other.bytes@.len(),
                forall|k: int| 0 <= k < i ==> self.bytes@[k] == other.bytes@[k],
        {
            if self.bytes[i] != other.bytes[i] {
                return false;
            }
        }
        proof {
            assert(self@ =~= other@);
        }
        true
    }

    /// The base58 text form of this identifier.
    pub fn to_base58(&self) -> (r: String)
        ensures
            base58_decode_of(r@) == Some(self@),
    {
        base58_encode(&self.bytes)
    }
}

/// A private signing key together with its derived public identifier. The
/// 64 bytes are the ed25519 encoding: seed, then public key.
#[derive(Debug)]
pub struct Keypair {
    pub bytes: Vec<u8>,
    pub public: Identifier,
}

impl Keypair {
    /// A valid 64-byte keypair encoding whose public half is bytes 32..64.
    pub open spec fn wf(&self) -> bool {
        &&& self.bytes@.len() == 64
        &&& ed25519_valid_keypair(self.bytes@)
        &&& self.public.wf()
        &&& self.public@ == self.bytes@.subrange(32, 64)
    }

    /// The derived public identifier.
    pub fn public(&self) -> (r: &Identifier)
        ensures
            r@ == self.public@,
    {
        &self.public
    }
}

/// Relies on `bs58::decode` (the Bitcoin alphabet, re-exported by
/// `solana_sdk`): the result depends on the characters alone, and decoding
/// fails exactly on strings that are not valid base58.
#[verifier::external_body]
pub(crate) fn base58_decode(s: &str) -> (r: Option<Vec<u8>>)
    ensures
        match r {
            Some(v) => base58_decode_of(s@) == Some(v@),
            None => base58_decode_of(s@) is None,
        },
{
    bs58::decode(s).into_vec().ok()
}

/// Relies on `bs58::encode` (re-exported by `solana_sdk`): it emits the
/// canonical base58 text of the bytes, which `bs58::decode` decodes back to
/// the same bytes.
#[verifier::external_body]
pub(crate) fn base58_encode(b: &Vec<u8>) -> (r: String)
    ensures
        base58_decode_of(r@) == Some(b@),
{
    bs58::encode(b.as_slice()).into_string()
}

/// Relies on `solana_sdk::signer::keypair::Keypair::from_bytes`: it succeeds
/// exactly on 64-byte encodings whose second half is the public key derived
/// from the first half, and the keypair's public key is then bytes 32..64.
#[verifier::external_body]
pub(crate) fn keypair_from_bytes(b: &Vec<u8>) -> (r: Option<Keypair>)
    ensures
        match r {
            Some(kp) => kp.wf() && kp.bytes@ == b@,
            None => !ed25519_valid_keypair(b@),
        },
{
    let kp = match SdkKeypair::from_bytes(b.as_slice()) {
        Ok(kp) => kp,
        Err(_) => {
            return None;
        },
    };
    let public = Identifier { bytes: kp.pubkey().to_bytes().to_vec() };
    Some(Keypair { bytes: b.clone(), public })
}

/// Relies on `solana_sdk::signer::keypair::Keypair::new`: a freshly generated
/// keypair is a valid 64-byte encoding; nothing else holds of its value.
#[verifier::external_body]
pub(crate) fn generate_keypair() -> (r: Keypair)
    ensures
        r.wf(),
{
    let kp = SdkKeypair::new();
    let public = Identifier { bytes: kp.pubkey().to_bytes().to_vec() };
    Keypair { bytes: kp.to_bytes().to_vec(), public }
}

/// What decoding a base58 secret key must yield: the 64 keypair bytes, or the
/// exact error for the stage that failed.
pub open spec fn secret_decode(s: Seq<char>) -> Result<Seq<u8>, BuilderError> {
    match base58_decode_of(s) {
        None => Err(BuilderError::MalformedKey),
        Some(b) => if b.len() != 64 {
            Err(BuilderError::InvalidKeyLength)
        } else if !ed25519_valid_keypair(b) {
            Err(BuilderError::MalformedKey)
        } else {
            Ok(b)
        },
    }
}

/// Decodes a base58 secret key into a signing keypair.
pub fn decode_secret(text: &str) -> (r: Result<Keypair, BuilderError>)
    ensures
        match r {
            Ok(kp) => kp.wf() && secret_decode(text@) == Ok::<Seq<u8>, BuilderError>(kp.bytes@),
            Err(e) => secret_decode(text@) == Err::<Seq<u8>, BuilderError>(e),
        },
{
    let bytes = match base58_decode(text) {
        None => {
            return Err(BuilderError::MalformedKey);
        },
        Some(v) => v,
    };
    if bytes.len() != 64 {
        return Err(BuilderError::InvalidKeyLength);
    }
    match keypair_from_bytes(&bytes) {
        None => Err(BuilderError::MalformedKey),
        Some(kp) => Ok(kp),
    }
}

/// What decoding a base58 public identifier must yield: its 32 bytes, or the
/// exact error for the stage that failed.
pub open spec fn public_decode(s: Seq<char>) -> Result<Seq<u8>, BuilderError> {
    match base58_decode_of(s) {
        None => Err(BuilderError::MalformedKey),
        Some(b) => if b.len() != 32 {
            Err(BuilderError::InvalidKeyLength)
        } else {
            Ok(b)
        },
    }
}

/// Decodes a base58 public key into a 32-byte identifier.
pub fn decode_public(text: &str) -> (r: Result<Identifier, BuilderError>)
    ensures
        match r {
            Ok(id) => id.wf() && public_decode(text@) == Ok::<Seq<u8>, BuilderError>(id@),
            Err(e) => public_decode(text@) == Err::<Seq<u8>, BuilderError>(e),
        },
{
    let bytes = match base58_decode(text) {
        None => {
            return Err(BuilderError::MalformedKey);
        },
        Some(v) => v,
    };
    if bytes.len() != 32 {
        return Err(BuilderError::InvalidKeyLength);
    }
    Ok(Identifier { bytes })
}

/// What decoding an account address string must yield: any failure collapses
/// to `InvalidAddressString`.
pub open spec fn address_decode(s: Seq<char>) -> Result<Seq<u8>, BuilderError> {
    match public_decode(s) {
        Ok(b) => Ok(b),
        Err(_) => Err(BuilderError::InvalidAddressString),
    }
}

/// Decodes a base58 account address into a 32-byte identifier.
pub fn decode_address(text: &str) -> (r: Result<Identifier, BuilderError>)
    ensures
        match r {
            Ok(id) => id.wf() && address_decode(text@) == Ok::<Seq<u8>, BuilderError>(id@),
            Err(e) => address_decode(text@) == Err::<Seq<u8>, BuilderError>(e),
        },
{
    match decode_public(text) {
        Ok(id) => Ok(id),
        Err(_) => Err(BuilderError::InvalidAddressString),
    }
}

/// Parsing of a textual constant into a value, for strings known to be valid.
pub trait FromStrConst: View + Sized {
    /// Whether the string is a valid constant for this type.
    spec fn from_str_valid(s: Seq<char>) -> bool;

    /// The view of the value a valid string denotes.
    spec fn from_str_view(s: Seq<char>) -> Self::V;

    /// Parses the string, which the caller must know to be valid.
    fn from_str_const(s: &str) -> (r: Self)
        requires
            Self::from_str_valid(s@),
        ensures
            r@ == Self::from_str_view(s@),
    ;
}

impl FromStrConst for Identifier {
    open spec fn from_str_valid(s: Seq<char>) -> bool {
        public_decode(s) is Ok
    }

    open spec fn from_str_view(s: Seq<char>) -> Seq<u8> {
        public_decode(s)->Ok_0
    }

    fn from_str_const(s: &str) -> (r: Identifier) {
        match decode_public(s) {
            Ok(id) => id,
            Err(_) => vstd::pervasive::unreached(),
        }
    }
}

/// What decoding one base58 hash string must yield; any failure is the
/// invalid-hash-length error naming `field`.
pub open spec fn hash_decode(s: Seq<char>, field: HashField) -> Result<Seq<u8>, BuilderError> {
    match base58_decode_of(s) {
        None => Err(BuilderError::InvalidHashLength(field)),
        Some(b) => if b.len() != 32 {
            Err(BuilderError::InvalidHashLength(field))
        } else {
            Ok(b)
        },
    }
}

/// Decodes a base58 string that must name exactly 32 hash bytes.
pub fn decode_hash(text: &str, field: HashField) -> (r: Result<Identifier, BuilderError>)
    ensures
        match r {
            Ok(id) => id.wf() && hash_decode(text@, field) == Ok::<Seq<u8>, BuilderError>(id@),
            Err(e) => hash_decode(text@, field) == Err::<Seq<u8>, BuilderError>(e),
        },
{
    let bytes = match base58_decode(text) {
        None => {
            return Err(BuilderError::InvalidHashLength(field));
        },
        Some(v) => v,
    };
    if bytes.len() != 32 {
        return Err(BuilderError::InvalidHashLength(field));
    }
    Ok(Identifier { bytes })
}

/// What decoding the proof list must yield from entry `j` on: the 32-byte
/// hash of every remaining entry in order, or the first entry's error.
pub open spec fn proof_decode_from(strings: Seq<Seq<char>>, j: int) -> Result<
    Seq<Seq<u8>>,
    BuilderError,
>
    decreases strings.len() - j,
{
    if j < 0 || j >= strings.len() {
        Ok(Seq::empty())
    } else {
        match hash_decode(strings[j], HashField::ProofElement) {
            Err(e) => Err(e),
            Ok(h) => match proof_decode_from(strings, j + 1) {
                Err(e) => Err(e),
                Ok(rest) => Ok(seq![h] + rest),
            },
        }
    }
}

/// What decoding a whole proof list must yield.
pub open spec fn proof_decode(strings: Seq<Seq<char>>) -> Result<Seq<Seq<u8>>, BuilderError> {
    proof_decode_from(strings, 0)
}

/// Decodes a list of base58 sibling-hash strings into a Merkle proof path,
/// keeping the order.
pub fn decode_proof(base58_strings: &Vec<String>) -> (r: Result<Vec<Identifier>, BuilderError>)
    ensures
        match r {
            Ok(path) => {
                &&& proof_decode(base58_strings.deep_view()) == Ok::<
                    Seq<Seq<u8>>,
                    BuilderError,
                >(path.deep_view())
                &&& forall|i: int| 0 <= i < path@.len() ==> (#[trigger] path@[i]).wf()
            },
            Err(e) => proof_decode(base58_strings.deep_view()) == Err::<
                Seq<Seq<u8>>,
                BuilderError,
            >(e),
        },
{
    let ghost all = base58_strings.deep_view();
    let n = base58_strings.len();
    let mut path: Vec<Identifier> = Vec::new();
    let mut j: usize = 0;
    while j < n
        invariant
            j <= n,
            n == base58_strings@.len(),
            all == base58_strings.deep_view(),
            path.deep_view().len() == j,
            forall|i: int| 0 <= i < path@.len() ==> (#[trigger] path@[i]).wf(),
            forall|rest: Seq<Seq<u8>>|
                proof_decode_from(all, j as int) == Ok::<Seq<Seq<u8>>, BuilderError>(rest)
                    ==> proof_decode(all) == Ok::<Seq<Seq<u8>>, BuilderError>(
                    path.deep_view() + rest,
                ),
            forall|e: BuilderError|
                proof_decode_from(all, j as int) == Err::<Seq<Seq<u8>>, BuilderError>(e)
                    ==> proof_decode(all) == Err::<Seq<Seq<u8>>, BuilderError>(e),
        decreases n - j,
    {
        proof {
            assert(all[j as int] == base58_strings@[j as int]@);
        }
        match decode_hash(base58_strings[j].as_str(), HashField::ProofElement) {
            Err(e) => {
                proof {
                    assert(proof_decode_from(all, j as int) == Err::<Seq<Seq<u8>>, BuilderError>(
                        e,
                    ));
                }
                return Err(e);
            },
            Ok(h) => {
                let ghost old_path = path.deep_view();
                let ghost hv = h@;
                path.push(h);
                proof {
                    assert(path.deep_view() =~= old_path.push(hv));
                    match proof_decode_from(all, j + 1) {
                        Ok(rest) => {
                            assert(proof_decode_from(all, j as int) == Ok::<
                                Seq<Seq<u8>>,
                                BuilderError,
                            >(seq![hv] + rest));
                            assert(old_path + (seq![hv] + rest) =~= path.deep_view() + rest);
                        },
                        Err(e) => {
                            assert(proof_decode_from(all, j as int) == Err::<
                                Seq<Seq<u8>>,
                                BuilderError,
                            >(e));
                        },
                    }
                }
                j += 1;
            },
        }
    }
    proof {
        assert(proof_decode_from(all, n as int) == Ok::<Seq<Seq<u8>>, BuilderError>(
            Seq::empty(),
        ));
        assert(path.deep_view() + Seq::<Seq<u8>>::empty() =~= path.deep_view());
    }
    Ok(path)
}

/// Decoding a secret key is deterministic: two successful decodes of the same
/// text yield the same keypair bytes.
pub proof fn lemma_decode_secret_deterministic(s: Seq<char>, b1: Seq<u8>, b2: Seq<u8>)
    requires
        secret_decode(s) == Ok::<Seq<u8>, BuilderError>(b1),
        secret_decode(s) == Ok::<Seq<u8>, BuilderError>(b2),
    ensures
        b1 == b2,
{
}

/// Round trip: base58 text that encodes a 32-byte identifier decodes back to
/// the identical 32 bytes.
pub proof fn lemma_identifier_round_trip(bytes: Seq<u8>, text: Seq<char>)
    requires
        bytes.len() == 32,
        base58_decode_of(text) == Some(bytes),
    ensures
        public_decode(text) == Ok::<Seq<u8>, BuilderError>(bytes),
{
}

} // verus!
