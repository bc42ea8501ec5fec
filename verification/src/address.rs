use vstd::prelude::*;

verus! {

/// A 32-byte account address (an ed25519 public key or a program-derived address).
#[derive(Clone, Copy, Debug, PartialEq, Eq)]
pub struct Address {
    pub bytes: [u8; 32],
}

/// The base58 alphabet (Bitcoin's): digits 0 to 57.
pub open spec fn base58_alphabet() -> Seq<char> {
    seq!['1', '2', '3', '4', '5', '6', '7', '8', '9', 'A', 'B', 'C', 'D', 'E', 'F', 'G', 'H', 'J', 'K', 'L', 'M', 'N', 'P', 'Q', 'R', 'S', 'T', 'U', 'V', 'W', 'X', 'Y', 'Z', 'a', 'b', 'c', 'd', 'e', 'f', 'g', 'h', 'i', 'j', 'k', 'm', 'n', 'o', 'p', 'q', 'r', 's', 't', 'u', 'v', 'w', 'x', 'y', 'z']
}

/// The number of zero bytes at the start of `bytes`.
pub open spec fn leading_zero_bytes(bytes: Seq<u8>) -> nat
    decreases bytes.len(),
{
    if bytes.len() > 0 && bytes[0] == 0 {
        1 + leading_zero_bytes(bytes.drop_first())
    } else {
        0
    }
}

/// The bytes read as a big-endian number.
pub open spec fn big_endian_value(bytes: Seq<u8>) -> nat
    decreases bytes.len(),
{
    if bytes.len() == 0 {
        0
    } else {
        big_endian_value(bytes.drop_last()) * 256 + bytes.last() as nat
    }
}

/// The base58 digits of `n`, most significant first, with none for zero.
pub open spec fn base58_digits(n: nat) -> Seq<char>
    decreases n,
{
    if n == 0 {
        seq![]
    } else {
        base58_digits(n / 58).push(base58_alphabet()[(n % 58) as int])
    }
}

/// The base58 text of a byte string: one `'1'` per leading zero byte, then the
/// base58 digits of the bytes' big-endian value.
pub open spec fn base58_text(bytes: Seq<u8>) -> Seq<char> {
    Seq::new(leading_zero_bytes(bytes), |i: int| '1') + base58_digits(big_endian_value(bytes))
}

/// Renders the address as `solana_pubkey::Pubkey`'s `Display` does (its
/// `write_as_base58`, through `five8::encode_32`). Trusted: that rendering is
/// the standard base58 encoding of the 32 bytes, as `base58_text` states it.
#[verifier::external_body]
fn pubkey_display(bytes: &[u8; 32]) -> (text: String)
    ensures
        text@ == base58_text(bytes@),
{
    anchor_lang::prelude::Pubkey::new_from_array(*bytes).to_string()
}

impl Address {
    /// Builds an address from its 32 bytes.
    pub fn new(bytes: [u8; 32]) -> (a: Address)
        ensures
            a.bytes == bytes,
    {
        Address { bytes }
    }

    /// Byte-wise comparison of two addresses (what `Pubkey == Pubkey` does).
    pub fn equals(&self, other: &Address) -> (same: bool)
        ensures
            same == (self.bytes@ == other.bytes@),
    {
        let mut i: usize = 0;
        while i < 32
            invariant
                0 <= i <= 32,
                forall|j: int| 0 <= j < i ==> self.bytes@[j] == other.bytes@[j],
            decreases 32 - i,
        {
            if self.bytes[i] != other.bytes[i] {
                assert(self.bytes@[i as int] != other.bytes@[i as int]);
                return false;
            }
            i = i + 1;
        }
        assert(self.bytes@ =~= other.bytes@);
        true
    }

    /// The 32 bytes of the address, as a seed.
    pub fn to_bytes(&self) -> (bytes: Vec<u8>)
        ensures
            bytes@ == self.bytes@,
    {
        vstd::slice::slice_to_vec(self.bytes.as_slice())
    }

    /// The address as text, as `Pubkey::to_string` gives it.
    pub fn to_base58(&self) -> (text: String)
        ensures
            text@ == base58_text(self.bytes@),
    {
        pubkey_display(&self.bytes)
    }
}

} // verus!
