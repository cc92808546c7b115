//! DHT arcs: wrap-around intervals of the bounded hash-space, used to filter
//! operations by locality.

use vstd::prelude::*;

verus! {

/// The number of points in the hash-space: locations are 32-bit.
pub open spec fn space_size() -> int {
    0x1_0000_0000
}

/// An interval of the hash-space centered at a location, wrapping around the
/// end of the space.
#[derive(Clone, Copy, Debug, PartialEq, Eq, Structural)]
pub struct DhtArc {
    /// The center location.
    pub center: u32,
    /// How far the arc reaches on each side of the center.
    pub coverage_radius: u32,
}

/// Whether a location falls within the arc from `center - radius` to
/// `center + radius`, taken modulo the space size: its forward distance from
/// the arc's start is at most the arc's width.
pub open spec fn arc_contains(center: u32, radius: u32, loc: u32) -> bool {
    (loc + space_size() + radius - center) % space_size() <= 2 * radius
}

impl DhtArc {
    /// Builds an arc from its center and coverage radius.
    pub fn new(center: u32, coverage_radius: u32) -> (r: DhtArc)
        ensures
            r == (DhtArc { center, coverage_radius }),
    {
        DhtArc { center, coverage_radius }
    }

    /// Whether the arc contains a location.
    pub fn contains(&self, loc: u32) -> (r: bool)
        ensures
            r == arc_contains(self.center, self.coverage_radius, loc),
    {
        let d: u64 = (loc as u64 + 0x1_0000_0000u64 + self.coverage_radius as u64
            - self.center as u64) % 0x1_0000_0000u64;
        d <= 2 * (self.coverage_radius as u64)
    }
}

/// An arc of radius one around a center contains exactly the center and its
/// two neighbours in the wrap-around space.
pub proof fn lemma_radius_one_neighbourhood(center: u32, loc: u32)
    ensures
        arc_contains(center, 1, loc) <==> (loc == center || loc == (center + 1) % space_size()
            || loc + 1 == center || (loc == space_size() - 1 && center == 0) || (loc == 0 && center
            == space_size() - 1)),
{
    let t = loc + space_size() + 1 - center;
    assert(2 <= t <= 2 * space_size());
    if t < space_size() {
        vstd::arithmetic::div_mod::lemma_small_mod(t as nat, space_size() as nat);
    } else if t < 2 * space_size() {
        vstd::arithmetic::div_mod::lemma_mod_sub_multiples_vanish(t, space_size());
        vstd::arithmetic::div_mod::lemma_small_mod((t - space_size()) as nat, space_size() as nat);
        assert(t % space_size() == t - space_size());
    } else {
        vstd::arithmetic::div_mod::lemma_mod_sub_multiples_vanish(t, space_size());
        vstd::arithmetic::div_mod::lemma_mod_self_0(space_size());
        assert(t % space_size() == 0);
    }
}

} // verus!
