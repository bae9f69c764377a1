//! The operands of the two confidential computations, packaged as the
//! compute cluster takes them.

use vstd::prelude::*;
use arcium_anchor::arg_builder::ArgBuilder;
use arcium_anchor::prelude::ArgumentList;
use crate::constants::CIPHERTEXT_SIZE;

verus! {

/// One operand of a confidential computation.
pub enum Operand {
    /// The x25519 public key that the shared secret derives from.
    X25519Pubkey(Seq<u8>),
    /// A 128-bit number in the clear.
    PlaintextU128(u128),
    /// An 8-bit number in the clear.
    PlaintextU8(u8),
    /// A 64-bit number in the clear.
    PlaintextU64(u64),
    /// The ciphertext of an 8-bit number.
    EncryptedU8(Seq<u8>),
    /// The ciphertext of a 64-bit number.
    EncryptedU64(Seq<u8>),
}

/// `arcium_anchor::arg_builder::ArgBuilder`, taken as opaque.
#[verifier::external_type_specification]
#[verifier::external_body]
pub struct ExArgBuilder(ArgBuilder);

/// The cluster's `ArgumentList`, taken as opaque.
#[verifier::external_type_specification]
#[verifier::external_body]
pub struct ExArgumentList(ArgumentList);

/// The operands added to a builder so far, in the order they were added:
/// each reference of its list together with the value it points at.
pub uninterp spec fn builder_operands(builder: ArgBuilder) -> Seq<Operand>;

/// The operands that an argument list encodes, in order: each reference
/// together with the value it points at.
pub uninterp spec fn list_operands(list: ArgumentList) -> Seq<Operand>;

/// Most operands a builder may hold before another is added. A reference
/// holds the index of its value in one byte, and no operand takes more than
/// two entries of a table: below this bound every index is exact.
pub const MAX_OPERANDS: usize = 128;

/// `ArgBuilder::new`: the new builder holds no operand. Its list starts
/// with every table empty.
pub assume_specification[ ArgBuilder::new ]() -> (builder: ArgBuilder)
    ensures
        builder_operands(builder) == Seq::<Operand>::empty(),
;

/// `ArgBuilder::x25519_pubkey`: the result holds the builder's operands,
/// then the key. The method appends the key to the byte arrays and a
/// reference to it to the arguments.
pub assume_specification[ ArgBuilder::x25519_pubkey ](builder: ArgBuilder, value: [u8; 32]) -> (out:
    ArgBuilder)
    requires
        builder_operands(builder).len() < MAX_OPERANDS,
    ensures
        builder_operands(out) == builder_operands(builder).push(Operand::X25519Pubkey(value@)),
;

/// `ArgBuilder::plaintext_u128`: the result holds the builder's operands,
/// then the number. The method appends the number to the 128-bit values and
/// a reference to it to the arguments.
pub assume_specification[ ArgBuilder::plaintext_u128 ](builder: ArgBuilder, value: u128) -> (out:
    ArgBuilder)
    requires
        builder_operands(builder).len() < MAX_OPERANDS,
    ensures
        builder_operands(out) == builder_operands(builder).push(Operand::PlaintextU128(value)),
;

/// `ArgBuilder::plaintext_u8`: the result holds the builder's operands,
/// then the number. The method appends the number itself to the arguments.
pub assume_specification[ ArgBuilder::plaintext_u8 ](builder: ArgBuilder, value: u8) -> (out:
    ArgBuilder)
    requires
        builder_operands(builder).len() < MAX_OPERANDS,
    ensures
        builder_operands(out) == builder_operands(builder).push(Operand::PlaintextU8(value)),
;

/// `ArgBuilder::plaintext_u64`: the result holds the builder's operands,
/// then the number. The method appends the number to the plaintext numbers
/// and a reference to it to the arguments.
pub assume_specification[ ArgBuilder::plaintext_u64 ](builder: ArgBuilder, value: u64) -> (out:
    ArgBuilder)
    requires
        builder_operands(builder).len() < MAX_OPERANDS,
    ensures
        builder_operands(out) == builder_operands(builder).push(Operand::PlaintextU64(value)),
;

/// `ArgBuilder::encrypted_u8`: the result holds the builder's operands,
/// then the ciphertext. The method appends the ciphertext to the byte arrays
/// and a reference to it to the arguments.
pub assume_specification[ ArgBuilder::encrypted_u8 ](builder: ArgBuilder, value: [u8; 32]) -> (out:
    ArgBuilder)
    requires
        builder_operands(builder).len() < MAX_OPERANDS,
    ensures
        builder_operands(out) == builder_operands(builder).push(Operand::EncryptedU8(value@)),
;

/// `ArgBuilder::encrypted_u64`: the result holds the builder's operands,
/// then the ciphertext. The method appends the ciphertext to the byte arrays
/// and a reference to it to the arguments.
pub assume_specification[ ArgBuilder::encrypted_u64 ](builder: ArgBuilder, value: [u8; 32]) -> (out:
    ArgBuilder)
    requires
        builder_operands(builder).len() < MAX_OPERANDS,
    ensures
        builder_operands(out) == builder_operands(builder).push(Operand::EncryptedU64(value@)),
;

/// `ArgBuilder::build`: the list encodes the builder's operands. The method
/// hands out the builder's list as it is.
pub assume_specification[ ArgBuilder::build ](builder: ArgBuilder) -> (list: ArgumentList)
    ensures
        list_operands(list) == builder_operands(builder),
;

/// The operands of a bet's aggregation: the bettor's public key, the nonce,
/// the outcome's ciphertext and the amount's ciphertext.
pub open spec fn bet_operands(user_pubkey: Seq<u8>, nonce: u128, encrypted_bet: Seq<u8>) -> Seq<
    Operand,
> {
    seq![
        Operand::X25519Pubkey(user_pubkey),
        Operand::PlaintextU128(nonce),
        Operand::EncryptedU8(encrypted_bet.subrange(0, 32)),
        Operand::EncryptedU64(encrypted_bet.subrange(32, 64)),
    ]
}

/// The operands of a payout's computation: the bettor's public key, the
/// nonce that the bet was encrypted with, the winning outcome and the
/// deposit, the last two in the clear.
pub open spec fn payout_operands(
    user_pubkey: Seq<u8>,
    nonce: u128,
    winning_outcome: u8,
    deposit_amount: u64,
) -> Seq<Operand> {
    seq![
        Operand::X25519Pubkey(user_pubkey),
        Operand::PlaintextU128(nonce),
        Operand::PlaintextU8(winning_outcome),
        Operand::PlaintextU64(deposit_amount),
    ]
}

/// The ciphertext that starts at `start` in `bytes`.
pub fn ciphertext_at(bytes: &Vec<u8>, start: usize) -> (ciphertext: [u8; 32])
    requires
        start + CIPHERTEXT_SIZE <= bytes@.len(),
    ensures
        ciphertext@ == bytes@.subrange(start as int, start + CIPHERTEXT_SIZE),
{
    let len: usize = bytes.len();
    let mut ciphertext = [0u8; 32];
    let mut i: usize = 0;
    while i < 32
        invariant
            i <= 32,
            start + 32 <= bytes@.len(),
            len == bytes@.len(),
            forall|j: int| 0 <= j < i ==> ciphertext@[j] == bytes@[start + j],
        decreases 32 - i,
    {
        ciphertext[i] = bytes[start + i];
        i += 1;
    }
    proof {
        assert(ciphertext@ =~= bytes@.subrange(start as int, start + CIPHERTEXT_SIZE));
    }
    ciphertext
}

/// Packages the operands of a bet's aggregation.
pub fn bet_arguments(user_pubkey: [u8; 32], nonce: u128, encrypted_bet: &Vec<u8>) -> (list:
    ArgumentList)
    requires
        encrypted_bet@.len() == 2 * CIPHERTEXT_SIZE,
    ensures
        list_operands(list) == bet_operands(user_pubkey@, nonce, encrypted_bet@),
{
    let encrypted_outcome = ciphertext_at(encrypted_bet, 0);
    let encrypted_amount = ciphertext_at(encrypted_bet, 32);
    let list = ArgBuilder::new().x25519_pubkey(user_pubkey).plaintext_u128(nonce).encrypted_u8(
        encrypted_outcome,
    ).encrypted_u64(encrypted_amount).build();
    proof {
        assert(list_operands(list) =~= bet_operands(user_pubkey@, nonce, encrypted_bet@));
    }
    list
}

/// Packages the operands of a payout's computation.
pub fn payout_arguments(
    user_pubkey: [u8; 32],
    nonce: u128,
    winning_outcome: u8,
    deposit_amount: u64,
) -> (list: ArgumentList)
    ensures
        list_operands(list) == payout_operands(
            user_pubkey@,
            nonce,
            winning_outcome,
            deposit_amount,
        ),
{
    let list = ArgBuilder::new().x25519_pubkey(user_pubkey).plaintext_u128(nonce).plaintext_u8(
        winning_outcome,
    ).plaintext_u64(deposit_amount).build();
    proof {
        assert(list_operands(list) =~= payout_operands(
            user_pubkey@,
            nonce,
            winning_outcome,
            deposit_amount,
        ));
    }
    list
}

} // verus!
