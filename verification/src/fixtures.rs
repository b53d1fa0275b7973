//! Fixed inputs of the network-restriction scenarios.
use vstd::prelude::*;

verus! {

/// Asset id used by the swap fixtures.
pub const ASSET: &'static str = "rgb:Ar4ouaLv-b7f7Dc_-z5EMvtu-FA5KNh1-nlae~jk-8xMBo7E";

/// `01` repeated `n` times.
pub open spec fn repeat_01(n: nat) -> Seq<char> {
    Seq::new(2 * n, |i: int| if i % 2 == 0 { '0' } else { '1' })
}

/// A well-formed swap string: 1 BTC for 2 units of [`ASSET`], valid until
/// the given timestamp, for payment hash `01` × 32.
pub fn swapstring() -> (s: String)
    ensures
        s@ == "1/btc/2/"@ + ASSET@ + "/2000000000/"@ + repeat_01(32),
{
    let mut s = String::from_str("1/btc/2/");
    s.append(ASSET);
    s.append("/2000000000/");
    let ghost prefix = s@;
    let mut i: usize = 0;
    while i < 32
        invariant
            i <= 32,
            s@ =~= prefix + repeat_01(i as nat),
        decreases 32 - i,
    {
        s.append("01");
        proof {
            reveal_strlit("01");
        }
        i = i + 1;
    }
    s
}

} // verus!
