//! The canonical byte encoding of a mint attestation.
//!
//! The backend signs the triple `(owner, amount, risk_score)`; the host
//! verifies that signature, under the registry's stored key, against exactly
//! these bytes. The encoding is fixed-width big-endian, field after field in
//! that order, and injective: tampering with any field, or reordering them,
//! changes the message, so a signature over one triple never attests
//! another.

use crate::AccountId;
use vstd::prelude::*;

verus! {

/// `256^width`.
pub open spec fn pow256(width: nat) -> int
    decreases width,
{
    if width == 0 {
        1
    } else {
        256 * pow256((width - 1) as nat)
    }
}

/// The `width` lowest bytes of `x`, big-endian: the last byte is
/// `x % 256`, the ones before it encode `x / 256`.
pub open spec fn be_bytes(x: int, width: nat) -> Seq<u8>
    decreases width,
{
    if width == 0 {
        Seq::empty()
    } else {
        be_bytes(x / 256, (width - 1) as nat).push((x % 256) as u8)
    }
}

/// The integer a big-endian byte string encodes.
pub open spec fn from_be(s: Seq<u8>) -> int
    decreases s.len(),
{
    if s.len() == 0 {
        0
    } else {
        from_be(s.drop_last()) * 256 + s.last()
    }
}

/// `amount` read as an unsigned 128-bit value (two's complement).
pub open spec fn amount_unsigned(amount: i128) -> int {
    if amount < 0 {
        amount + 0x1_0000_0000_0000_0000_0000_0000_0000_0000
    } else {
        amount as int
    }
}

/// The canonical message over which a mint attestation is signed: owner in
/// 8 bytes, amount in 16 bytes (two's complement), risk score in 4 bytes,
/// each big-endian, in that order.
pub open spec fn attestation_message(owner: AccountId, amount: i128, risk_score: u32) -> Seq<u8> {
    be_bytes(owner as int, 8) + be_bytes(amount_unsigned(amount), 16) + be_bytes(
        risk_score as int,
        4,
    )
}

/// Append the `width` lowest bytes of `x`, big-endian.
fn push_be(out: &mut Vec<u8>, x: u128, width: u8)
    requires
        old(out)@.len() + width <= usize::MAX,
    ensures
        final(out)@ == old(out)@ + be_bytes(x as int, width as nat),
    decreases width,
{
    if width == 0 {
        proof {
            assert(out@ =~= old(out)@ + be_bytes(x as int, 0));
        }
        return ;
    }
    push_be(out, x / 256, width - 1);
    out.push((x % 256) as u8);
    proof {
        assert(out@ =~= old(out)@ + be_bytes(x as int, width as nat));
    }
}

/// The bytes of [`attestation_message`], for the host to hand to the
/// signature-verification primitive together with the stored backend key.
pub fn attestation_message_bytes(owner: AccountId, amount: i128, risk_score: u32) -> (r: Vec<u8>)
    ensures
        r@ == attestation_message(owner, amount, risk_score),
        r@.len() == 28,
{
    let unsigned_amount: u128 = if amount >= 0 {
        amount as u128
    } else {
        u128::MAX - ((-(amount + 1)) as u128)
    };
    proof {
        assert(unsigned_amount as int == amount_unsigned(amount));
        lemma_be_bytes_len(owner as int, 8);
        lemma_be_bytes_len(unsigned_amount as int, 16);
        lemma_be_bytes_len(risk_score as int, 4);
    }
    let mut out: Vec<u8> = Vec::new();
    push_be(&mut out, owner as u128, 8);
    push_be(&mut out, unsigned_amount, 16);
    push_be(&mut out, risk_score as u128, 4);
    proof {
        assert(out@ =~= attestation_message(owner, amount, risk_score));
    }
    out
}

proof fn lemma_be_bytes_len(x: int, width: nat)
    ensures
        be_bytes(x, width).len() == width,
    decreases width,
{
    if width > 0 {
        lemma_be_bytes_len(x / 256, (width - 1) as nat);
    }
}

/// Decoding inverts encoding for values that fit the width.
proof fn lemma_be_bytes_roundtrip(x: int, width: nat)
    requires
        0 <= x < pow256(width),
    ensures
        from_be(be_bytes(x, width)) == x,
    decreases width,
{
    if width == 0 {
    } else {
        let rest = be_bytes(x / 256, (width - 1) as nat);
        lemma_be_bytes_len(x / 256, (width - 1) as nat);
        assert(rest.push((x % 256) as u8).drop_last() =~= rest);
        assert(x / 256 < pow256((width - 1) as nat)) by (nonlinear_arith)
            requires
                0 <= x,
                x < 256 * pow256((width - 1) as nat),
        ;
        lemma_be_bytes_roundtrip(x / 256, (width - 1) as nat);
    }
}

/// Law: the canonical attestation encoding is injective. Equal messages
/// come only from equal `(owner, amount, risk_score)` triples, so a
/// signature over one triple never attests a tampered or reordered one.
pub proof fn lemma_attestation_message_injective(
    owner1: AccountId,
    amount1: i128,
    risk1: u32,
    owner2: AccountId,
    amount2: i128,
    risk2: u32,
)
    requires
        attestation_message(owner1, amount1, risk1) == attestation_message(
            owner2,
            amount2,
            risk2,
        ),
    ensures
        owner1 == owner2,
        amount1 == amount2,
        risk1 == risk2,
{
    let o1 = be_bytes(owner1 as int, 8);
    let a1 = be_bytes(amount_unsigned(amount1), 16);
    let r1 = be_bytes(risk1 as int, 4);
    let o2 = be_bytes(owner2 as int, 8);
    let a2 = be_bytes(amount_unsigned(amount2), 16);
    let r2 = be_bytes(risk2 as int, 4);
    lemma_be_bytes_len(owner1 as int, 8);
    lemma_be_bytes_len(amount_unsigned(amount1), 16);
    lemma_be_bytes_len(risk1 as int, 4);
    lemma_be_bytes_len(owner2 as int, 8);
    lemma_be_bytes_len(amount_unsigned(amount2), 16);
    lemma_be_bytes_len(risk2 as int, 4);
    let m1 = o1 + a1 + r1;
    let m2 = o2 + a2 + r2;
    assert(o1 =~= o2) by {
        assert forall|i: int| 0 <= i < 8 implies o1[i] == o2[i] by {
            assert(o1[i] == m1[i]);
            assert(o2[i] == m2[i]);
        }
    }
    assert(a1 =~= a2) by {
        assert forall|i: int| 0 <= i < 16 implies a1[i] == a2[i] by {
            assert(a1[i] == m1[8 + i]);
            assert(a2[i] == m2[8 + i]);
        }
    }
    assert(r1 =~= r2) by {
        assert forall|i: int| 0 <= i < 4 implies r1[i] == r2[i] by {
            assert(r1[i] == m1[24 + i]);
            assert(r2[i] == m2[24 + i]);
        }
    }
    reveal_with_fuel(pow256, 17);
    assert(pow256(8) == 0x1_0000_0000_0000_0000);
    assert(pow256(16) == 0x1_0000_0000_0000_0000_0000_0000_0000_0000);
    assert(pow256(4) == 0x1_0000_0000);
    lemma_be_bytes_roundtrip(owner1 as int, 8);
    lemma_be_bytes_roundtrip(owner2 as int, 8);
    lemma_be_bytes_roundtrip(amount_unsigned(amount1), 16);
    lemma_be_bytes_roundtrip(amount_unsigned(amount2), 16);
    lemma_be_bytes_roundtrip(risk1 as int, 4);
    lemma_be_bytes_roundtrip(risk2 as int, 4);
}

} // verus!
