//! Candidate keypairs and the textual forms of their two halves.

use solana_sdk::pubkey::Pubkey;
use solana_sdk::signature::Keypair;
use vstd::prelude::*;
use vstd::slice::slice_subrange;

verus! {

/// Number of bytes of a keypair: the secret key followed by the public key.
pub const KEYPAIR_BYTES: usize = 64;

/// Number of bytes of each half of a keypair.
pub const KEY_BYTES: usize = 32;

/// An Ed25519 keypair of `solana_sdk`, opaque to the verifier.
#[verifier::external_type_specification]
#[verifier::external_body]
pub struct ExKeypair(Keypair);

/// The base58 text (Bitcoin alphabet) that `bs58` produces for a byte string.
pub uninterp spec fn base58_text(bytes: Seq<u8>) -> Seq<char>;

/// The text that `solana_sdk` shows for the address made of the bytes of a
/// public key.
pub uninterp spec fn address_text(public_key: Seq<u8>) -> Seq<char>;

/// `Keypair::new` of `solana_sdk`: a keypair from the operating system's
/// random source. Nothing is claimed of the outcome.
#[verifier::external_body]
fn fresh_keypair() -> Keypair {
    Keypair::new()
}

/// `Keypair::to_bytes` of `solana_sdk`: an array of `KEYPAIR_BYTES` bytes,
/// handed on as a vector.
#[verifier::external_body]
fn keypair_bytes(keypair: &Keypair) -> (r: Vec<u8>)
    ensures
        r@.len() == KEYPAIR_BYTES,
{
    keypair.to_bytes().to_vec()
}

/// `Pubkey::try_from` of `solana_sdk` followed by the address's `to_string`:
/// the text of the address made of the `KEY_BYTES` bytes of a public key.
/// The conversion fails on any other number of bytes, which `requires`
/// leaves out.
#[verifier::external_body]
fn address_of_key(public_key: &[u8]) -> (r: String)
    requires
        public_key@.len() == KEY_BYTES,
    ensures
        r@ == address_text(public_key@),
{
    Pubkey::try_from(public_key).unwrap().to_string()
}

/// `bs58::encode(..).into_string()`: the base58 text of `bytes`.
#[verifier::external_body]
fn base58_encode(bytes: &Vec<u8>) -> (r: String)
    ensures
        r@ == base58_text(bytes@),
{
    bs58::encode(bytes).into_string()
}

/// The public half of a keypair's bytes.
pub open spec fn public_half(bytes: Seq<u8>) -> Seq<u8> {
    bytes.subrange(KEY_BYTES as int, KEYPAIR_BYTES as int)
}

/// The mathematical content of a result.
pub struct ResultView {
    pub public_key: Seq<char>,
    pub private_key: Seq<char>,
}

/// The result that stands for a keypair's bytes: the address of the public
/// half, and the base58 text of the whole.
pub open spec fn keys_of(bytes: Seq<u8>) -> ResultView {
    ResultView { public_key: address_text(public_half(bytes)), private_key: base58_text(bytes) }
}

/// The text is the base58 form of some keypair's bytes.
pub open spec fn encodes_keypair(text: Seq<char>) -> bool {
    exists|bytes: Seq<u8>| bytes.len() == KEYPAIR_BYTES && text == #[trigger] base58_text(bytes)
}

/// The two texts of a result stand for one and the same keypair.
pub open spec fn coherent(found: ResultView) -> bool {
    exists|bytes: Seq<u8>| bytes.len() == KEYPAIR_BYTES && found == #[trigger] keys_of(bytes)
}

/// A result that stands for one keypair holds that keypair in base58.
pub proof fn coherent_result_encodes_keypair(found: ResultView)
    requires
        coherent(found),
    ensures
        encodes_keypair(found.private_key),
{
    let bytes = choose|bytes: Seq<u8>| bytes.len() == KEYPAIR_BYTES && found == #[trigger] keys_of(
        bytes,
    );
    assert(found.private_key == base58_text(bytes));
}

/// A found keypair in textual form.
#[derive(Debug, PartialEq, Eq)]
pub struct VanityResult {
    /// The address: the public key in base58.
    pub public_key: String,
    /// The whole keypair in base58.
    pub private_key: String,
}

impl View for VanityResult {
    type V = ResultView;

    open spec fn view(&self) -> ResultView {
        ResultView { public_key: self.public_key@, private_key: self.private_key@ }
    }
}

impl Clone for VanityResult {
    fn clone(&self) -> (r: Self)
        ensures
            r@ == self@,
    {
        VanityResult {
            public_key: self.public_key.clone(),
            private_key: self.private_key.clone(),
        }
    }
}

/// One candidate of the search: the bytes of a freshly drawn keypair.
pub struct Candidate {
    bytes: Vec<u8>,
}

impl View for Candidate {
    type V = Seq<u8>;

    closed spec fn view(&self) -> Seq<u8> {
        self.bytes@
    }
}

impl Candidate {
    #[verifier::type_invariant]
    spec fn whole(self) -> bool {
        self.bytes@.len() == KEYPAIR_BYTES
    }

    /// Draws a new random keypair and keeps its bytes.
    pub fn generate() -> (r: Candidate)
        ensures
            r@.len() == KEYPAIR_BYTES,
    {
        let keypair = fresh_keypair();
        Candidate { bytes: keypair_bytes(&keypair) }
    }

    /// The candidate's address: the text of its public half.
    pub fn address(&self) -> (r: String)
        ensures
            self@.len() == KEYPAIR_BYTES,
            r@ == address_text(public_half(self@)),
            r@ == keys_of(self@).public_key,
    {
        proof {
            use_type_invariant(self);
        }
        let public_key = slice_subrange(self.bytes.as_slice(), KEY_BYTES, KEYPAIR_BYTES);
        address_of_key(public_key)
    }

    /// The candidate's keypair in base58.
    pub fn secret(&self) -> (r: String)
        ensures
            self@.len() == KEYPAIR_BYTES,
            r@ == base58_text(self@),
            r@ == keys_of(self@).private_key,
            encodes_keypair(r@),
    {
        proof {
            use_type_invariant(self);
        }
        base58_encode(&self.bytes)
    }

    /// Turns the candidate into a result under the address `address`.
    pub(crate) fn into_result(self, address: String) -> (r: VanityResult)
        ensures
            self@.len() == KEYPAIR_BYTES,
            r.public_key == address,
            r.private_key@ == base58_text(self@),
    {
        let private_key = self.secret();
        VanityResult { public_key: address, private_key }
    }
}

} // verus!
