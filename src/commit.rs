use vstd::prelude::*;

verus! {

/// The `n` low-order bytes of `v`, least significant first.
pub open spec fn le_bytes(v: nat, n: nat) -> Seq<u8>
    decreases n,
{
    if n == 0 {
        seq![]
    } else {
        seq![(v % 256) as u8] + le_bytes(v / 256, (n - 1) as nat)
    }
}

/// Canonical encoding of revealed terms: price, quantity and ttl as 8-byte
/// little-endian integers (ttl in two's complement), the multisig flag as one
/// byte 0 or 1, then the threshold byte.
pub open spec fn reveal_encoding(
    price: u64,
    quantity: u64,
    ttl: i64,
    is_multisig: bool,
    threshold: u8,
) -> Seq<u8> {
    le_bytes(price as nat, 8) + le_bytes(quantity as nat, 8) + le_bytes((ttl as u64) as nat, 8)
        + seq![if is_multisig { 1u8 } else { 0u8 }] + seq![threshold]
}

/// The SHA-256 digest of a byte string.
pub uninterp spec fn sha256_digest(data: Seq<u8>) -> Seq<u8>;

/// Relies on solana_program::hash::hash: the 32-byte SHA-256 digest of the
/// input bytes, a function of those bytes alone.
#[verifier::external_body]
fn sha256(data: &Vec<u8>) -> (r: [u8; 32])
    ensures
        r@ == sha256_digest(data@),
{
    solana_program::hash::hash(data.as_slice()).to_bytes()
}

/// Append the 8 little-endian bytes of `v`.
fn push_le_u64(out: &mut Vec<u8>, v: u64)
    ensures
        final(out)@ == old(out)@ + le_bytes(v as nat, 8),
{
    let mut x: u64 = v;
    let mut i: usize = 0;
    while i < 8
        invariant
            0 <= i <= 8,
            out@ + le_bytes(x as nat, (8 - i) as nat) == old(out)@ + le_bytes(v as nat, 8),
        decreases 8 - i,
    {
        let ghost before = out@;
        let b: u8 = (x % 256) as u8;
        out.push(b);
        proof {
            let k = (8 - i) as nat;
            assert(le_bytes(x as nat, k) == seq![b] + le_bytes((x / 256) as nat, (k - 1) as nat));
            assert(out@ + le_bytes((x / 256) as nat, (k - 1) as nat) =~= before + le_bytes(
                x as nat,
                k,
            ));
        }
        x = x / 256;
        i = i + 1;
    }
    assert(le_bytes(x as nat, 0) =~= seq![]);
    assert(out@ =~= out@ + le_bytes(x as nat, 0));
}

impl crate::types::OrderRevealData {
    /// Encode the terms as committed to.
    pub fn encode(&self) -> (r: Vec<u8>)
        ensures
            r@ == reveal_encoding(
                self.price,
                self.quantity,
                self.ttl,
                self.is_multisig,
                self.multisig_threshold,
            ),
    {
        let mut out: Vec<u8> = Vec::new();
        push_le_u64(&mut out, self.price);
        push_le_u64(&mut out, self.quantity);
        push_le_u64(&mut out, self.ttl as u64);
        out.push(if self.is_multisig { 1u8 } else { 0u8 });
        out.push(self.multisig_threshold);
        assert(out@ =~= reveal_encoding(
            self.price,
            self.quantity,
            self.ttl,
            self.is_multisig,
            self.multisig_threshold,
        ));
        out
    }

    /// The digest that a commitment to these terms must hold.
    pub fn commitment(&self) -> (r: [u8; 32])
        ensures
            r@ == sha256_digest(
                reveal_encoding(
                    self.price,
                    self.quantity,
                    self.ttl,
                    self.is_multisig,
                    self.multisig_threshold,
                ),
            ),
    {
        let bytes = self.encode();
        sha256(&bytes)
    }
}

} // verus!
