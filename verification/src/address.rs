use vstd::prelude::*;

verus! {

broadcast use vstd::array::group_array_axioms;

/// The all-zero 32-byte identifier, used as the default fee address when a
/// route step carries none.
pub open spec fn zero_address_bytes() -> Seq<u8> {
    Seq::new(32, |i: int| 0u8)
}

/// The base-58 rendering of a 32-byte identifier. The text is a function of
/// the bytes alone; its exact shape is left to the ledger SDK that computes it.
pub uninterp spec fn base58_of(bytes: Seq<u8>) -> Seq<char>;

/// A fixed 32-byte identifier for an account or asset on the target ledger.
#[derive(Clone, Copy, PartialEq, Eq, Debug)]
pub struct Address {
    pub bytes: [u8; 32],
}

impl View for Address {
    type V = Seq<u8>;

    open spec fn view(&self) -> Seq<u8> {
        self.bytes@
    }
}

impl DeepView for Address {
    type V = Seq<u8>;

    open spec fn deep_view(&self) -> Seq<u8> {
        self.view()
    }
}

impl Address {
    /// Wraps 32 raw bytes, the binary wire representation, without change.
    pub fn from_bytes(bytes: [u8; 32]) -> (r: Address)
        ensures
            r@ == bytes@,
    {
        Address { bytes }
    }

    /// The all-zero address.
    pub fn zero() -> (r: Address)
        ensures
            r@ == zero_address_bytes(),
    {
        let bytes = [0u8; 32];
        proof {
            assert(bytes@ =~= zero_address_bytes());
        }
        Address { bytes }
    }

    /// Relies on solana_sdk::pubkey::Pubkey's Display impl: the base-58 text
    /// of the 32 bytes, determined by the bytes alone.
    #[verifier::external_body]
    pub fn to_base58(&self) -> (r: String)
        ensures
            r@ == base58_of(self@),
    {
        solana_sdk::pubkey::Pubkey::from(self.bytes).to_string()
    }
}

/// Two identifiers over the same 32 bytes render to the same base-58 text:
/// the textual form of a request address and of a decoded binary address
/// agree whenever the underlying bytes agree.
pub proof fn lemma_base58_agrees(a: Address, b: Address)
    requires
        a@ == b@,
    ensures
        base58_of(a@) == base58_of(b@),
{
}

} // verus!
