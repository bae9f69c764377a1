use vstd::prelude::*;

verus! {

/// Largest number of characters a market's question may hold.
pub const MAX_QUESTION_LEN: usize = 200;

/// Bytes of an encrypted bet: a 32-byte outcome ciphertext, then a 32-byte amount ciphertext.
pub const ENCRYPTED_BET_SIZE: usize = 64;

/// Largest number of bytes an encrypted pool snapshot may take.
pub const ENCRYPTED_STATE_SIZE: usize = 256;

/// Bytes of one encrypted scalar.
pub const CIPHERTEXT_SIZE: usize = 32;

} // verus!
