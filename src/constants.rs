use vstd::prelude::*;

use crate::pubkey::Pubkey;

verus! {

/// Seconds after participation during which the promoter may reveal; past it,
/// an unrevealed game settles in the player's favour.
pub const REVEAL_TIME: i64 = 600000;

/// Size in bytes of an encoded game record.
pub const RECORD_LEN: usize = 89;

/// Bytes of the vault address that collects the house fee.
pub open spec fn vault_bytes() -> Seq<u8> {
    seq![
        201u8, 57, 109, 227, 15, 112, 189, 193, 194, 123, 67, 190, 41, 9, 254, 33,
        36, 13, 150, 222, 102, 97, 155, 205, 91, 172, 45, 118, 50, 47, 80, 190,
    ]
}

/// The vault address that collects the house fee.
pub fn vault() -> (r: Pubkey)
    ensures
        r@ == vault_bytes(),
{
    let r = Pubkey {
        bytes: [
            201u8, 57, 109, 227, 15, 112, 189, 193, 194, 123, 67, 190, 41, 9, 254, 33,
            36, 13, 150, 222, 102, 97, 155, 205, 91, 172, 45, 118, 50, 47, 80, 190,
        ],
    };
    assert(r@ =~= vault_bytes());
    r
}

/// The system program's address: all zero bytes.
pub fn system_id() -> (r: Pubkey)
    ensures
        r@ == Seq::new(32, |i: int| 0u8),
{
    let r = Pubkey { bytes: [0u8; 32] };
    assert(r@ =~= Seq::new(32, |i: int| 0u8));
    r
}

} // verus!
