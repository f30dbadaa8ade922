use vstd::prelude::*;

verus! {

/// Bytes in an AES block, and so in a CBC initialisation vector.
pub const BLOCK_SIZE: usize = 16;

/// Bytes in an AES-128 key.
pub const KEY_SIZE: usize = 16;

/// Bytes in the nonce that the authenticated mode is run with. GCM is mostly
/// given nonces of 12 bytes; this benchmark gives it 16, the size of a block,
/// and takes no other length.
pub const NONCE_SIZE: usize = 16;

/// Bytes in the authentication tag that follows a sealed message.
pub const TAG_SIZE: usize = 16;

/// The longest message, in bytes, that the authenticated mode seals.
pub const MAX_SEALED_MESSAGE: u64 = 0x10_0000_0000;

/// Length of a message of `len` bytes once padded to whole blocks: the whole
/// blocks of the message and one more, which holds the rest and the padding.
pub open spec fn padded_len(len: nat) -> nat {
    (len / 16 + 1) * 16
}

/// Length of a sealed message of `len` bytes: the message and its tag.
pub open spec fn sealed_len(len: nat) -> nat {
    len + 16
}

/// Whether the authenticated mode takes a message of `len` bytes: it is within
/// the mode's limit, and the sealed message can be allocated.
pub open spec fn sealable(len: nat) -> bool {
    len <= MAX_SEALED_MESSAGE && len + 16 <= isize::MAX
}

/// Whether the padded encryption of a message of `len` bytes has a buffer: one
/// of the padded length can be allocated.
pub open spec fn paddable(len: nat) -> bool {
    padded_len(len) <= isize::MAX
}

/// On a machine whose addresses have 64 bits, every message of less than
/// 2^32 - 16 bytes can be padded into a buffer and can be sealed.
pub proof fn lemma_short_messages_fit(len: nat)
    requires
        usize::BITS == 64,
        len < 0x1_0000_0000 - 16,
    ensures
        paddable(len),
        sealable(len),
{
}

/// The padded length is the first block boundary behind the message: a whole
/// number of blocks, longer than the message by one byte at least and by one
/// block at most.
pub proof fn lemma_padded_len_is_next_boundary(len: nat)
    ensures
        padded_len(len) % 16 == 0,
        len < padded_len(len) <= len + 16,
{
    assert(padded_len(len) == (len / 16) * 16 + 16) by (nonlinear_arith)
        requires
            padded_len(len) == (len / 16 + 1) * 16,
    ;
}

/// The buffer that the padded encryption of a message of `len` bytes needs,
/// computed from the message's length; `None` where no buffer can be
/// allocated that long.
pub fn padded_capacity(len: usize) -> (cap: Option<usize>)
    ensures
        cap matches Some(c) ==> c == padded_len(len as nat),
        cap is None <==> padded_len(len as nat) > isize::MAX,
{
    let blocks: usize = len / BLOCK_SIZE;
    if blocks < isize::MAX as usize / BLOCK_SIZE {
        Some((blocks + 1) * BLOCK_SIZE)
    } else {
        None
    }
}

/// Whether a message of `len` bytes leaves room for its tag in the longest
/// vector that can be allocated.
pub fn sealed_fits(len: usize) -> (fits: bool)
    ensures
        fits == (sealed_len(len as nat) <= isize::MAX),
{
    len <= isize::MAX as usize - TAG_SIZE
}

} // verus!
