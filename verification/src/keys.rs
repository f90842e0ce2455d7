use vstd::prelude::*;

verus! {

/// A 256-bit account identifier (an asset type, a vault, an authority or a
/// callback program), held as two 128-bit words: `hi` is the first sixteen
/// bytes of the identifier in big-endian order, `lo` the last sixteen, so the
/// numeric order on `(hi, lo)` is the lexicographic order on the bytes.
#[derive(Clone, Copy, Debug, PartialEq, Eq, Structural)]
pub struct Pubkey {
    pub hi: u128,
    pub lo: u128,
}

/// Strict order on identifiers: lexicographic on the big-endian bytes.
pub open spec fn key_lt(a: Pubkey, b: Pubkey) -> bool {
    a.hi < b.hi || (a.hi == b.hi && a.lo < b.lo)
}

/// The canonical arrangement of an unordered asset pair: the smaller
/// identifier first. A market derived from this key has one deterministic
/// identity regardless of the order in which a caller names the two assets.
pub open spec fn spec_pair_key(x: Pubkey, y: Pubkey) -> (Pubkey, Pubkey) {
    if key_lt(y, x) {
        (y, x)
    } else {
        (x, y)
    }
}

impl Pubkey {
    /// Decides the strict order [`key_lt`].
    pub fn is_below(&self, other: &Pubkey) -> (r: bool)
        ensures
            r == key_lt(*self, *other),
    {
        self.hi < other.hi || (self.hi == other.hi && self.lo < other.lo)
    }
}

/// Canonically orders an asset pair: returns `(low, high)`.
pub fn pair_key(x: Pubkey, y: Pubkey) -> (r: (Pubkey, Pubkey))
    ensures
        r == spec_pair_key(x, y),
{
    if y.is_below(&x) {
        (y, x)
    } else {
        (x, y)
    }
}

/// Canonical ordering is insensitive to the order in which the two assets are
/// named: `pair_key(x, y) == pair_key(y, x)`.
pub proof fn lemma_pair_key_symmetric(x: Pubkey, y: Pubkey)
    ensures
        spec_pair_key(x, y) == spec_pair_key(y, x),
{
    if !key_lt(x, y) && !key_lt(y, x) {
        assert(x == y);
    }
}

} // verus!
