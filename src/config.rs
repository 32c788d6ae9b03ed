//! The settings of one galaxy, their validation, and the integer plan that
//! they fix.
use crate::binary32::{as_u32, is_positive, is_positive_finite, positive, positive_finite, truncate_to_u32};
use vstd::prelude::*;

verus! {

/// The only way a generation request can fail.
#[derive(Clone, Copy, Debug, PartialEq, Eq, Structural)]
pub enum GalaxyError {
    /// A setting lies outside its domain; nothing was produced.
    InvalidParameter,
}

/// The settings of one galaxy.  Real-valued settings are held as the bit
/// patterns of `f32` values (`f32::to_bits`).
#[derive(Clone, Copy, Debug, PartialEq, Eq, Structural)]
pub struct GalaxyConfig {
    /// Seed of the noise stream.
    pub seed: u64,
    /// Number of spiral arms.
    pub branch_count: u32,
    /// Total number of stars asked for, over all arms.
    pub elem_count: u32,
    /// Distance of each arm's innermost star from the center.
    pub init_radius_bits: u32,
    /// Outward growth per revolution.
    pub expansion_rate_bits: u32,
    /// Number of turns an arm sweeps; only whole turns count.
    pub revolution_count_bits: u32,
    /// Standard deviation of the out-of-plane jitter.
    pub depth_std_dev_bits: u32,
    /// Standard deviation of the jitter along the radius.
    pub lat_offset_std_dev_bits: u32,
}

/// The integer skeleton of a galaxy.
#[derive(Clone, Copy, Debug, PartialEq, Eq, Structural)]
pub struct GalaxyPlan {
    /// Number of arms.
    pub branch_count: u32,
    /// Stars on each arm.
    pub systems_per_branch: u32,
    /// Stars per full turn of an arm.
    pub systems_per_revolution: u32,
}

impl GalaxyPlan {
    /// Both divisors of the layout are nonzero.
    pub open spec fn wf(&self) -> bool {
        self.branch_count > 0 && self.systems_per_revolution > 0
    }

    /// Number of stars the plan places.
    pub open spec fn star_count(&self) -> nat {
        self.branch_count as nat * self.systems_per_branch as nat
    }
}

/// Whole turns of an arm, the divisor of the stars per turn: the revolution
/// count truncated toward zero (saturated, as `as u32` does), and at least
/// one, so that a count below one turn still divides.
pub open spec fn whole_revolutions(c: GalaxyConfig) -> u32 {
    if as_u32(c.revolution_count_bits) == 0 {
        1
    } else {
        as_u32(c.revolution_count_bits)
    }
}

/// A configuration is accepted when it has at least one arm, both standard
/// deviations are positive and finite, and the revolution count is positive.
pub open spec fn config_valid(c: GalaxyConfig) -> bool {
    &&& c.branch_count > 0
    &&& is_positive_finite(c.depth_std_dev_bits)
    &&& is_positive_finite(c.lat_offset_std_dev_bits)
    &&& is_positive(c.revolution_count_bits)
}

/// Stars on each arm: the total split evenly over the arms, the remainder
/// dropped.
pub open spec fn per_branch(elem_count: u32, branch_count: u32) -> nat
    recommends
        branch_count > 0,
{
    (elem_count / branch_count) as nat
}

/// Stars per turn: the stars of an arm split over its whole turns, and at
/// least one, so that an arm shorter than its turn count still advances.
pub open spec fn per_revolution(systems_per_branch: u32, revolutions: u32) -> nat
    recommends
        revolutions > 0,
{
    let q = systems_per_branch / revolutions;
    if q == 0 {
        1
    } else {
        q as nat
    }
}

/// The plan that a valid configuration fixes.
pub open spec fn plan_of(c: GalaxyConfig) -> GalaxyPlan
    recommends
        config_valid(c),
{
    let spb = per_branch(c.elem_count, c.branch_count);
    GalaxyPlan {
        branch_count: c.branch_count,
        systems_per_branch: spb as u32,
        systems_per_revolution: per_revolution(spb as u32, whole_revolutions(c)) as u32,
    }
}

/// Stars on each arm.
pub fn systems_per_branch(elem_count: u32, branch_count: u32) -> (r: u32)
    requires
        branch_count > 0,
    ensures
        r == per_branch(elem_count, branch_count),
{
    elem_count / branch_count
}

/// Stars per full turn of an arm.
pub fn systems_per_revolution(systems_per_branch: u32, revolutions: u32) -> (r: u32)
    requires
        revolutions > 0,
    ensures
        r == per_revolution(systems_per_branch, revolutions),
        r > 0,
{
    let q: u32 = systems_per_branch / revolutions;
    if q == 0 {
        1
    } else {
        q
    }
}

impl GalaxyConfig {
    /// Checks the settings and computes the plan; fails exactly on the
    /// configurations that `config_valid` rejects.
    pub fn plan(&self) -> (r: Result<GalaxyPlan, GalaxyError>)
        ensures
            r is Ok <==> config_valid(*self),
            r is Err ==> r == Err::<GalaxyPlan, GalaxyError>(GalaxyError::InvalidParameter),
            r is Ok ==> r->Ok_0 == plan_of(*self) && r->Ok_0.wf(),
    {
        if self.branch_count == 0 || !positive_finite(self.depth_std_dev_bits)
            || !positive_finite(self.lat_offset_std_dev_bits) || !positive(
            self.revolution_count_bits,
        ) {
            return Err(GalaxyError::InvalidParameter);
        }
        let truncated = truncate_to_u32(self.revolution_count_bits);
        let revolutions: u32 = if truncated == 0 {
            1
        } else {
            truncated
        };
        let spb = systems_per_branch(self.elem_count, self.branch_count);
        let spr = systems_per_revolution(spb, revolutions);
        Ok(GalaxyPlan {
            branch_count: self.branch_count,
            systems_per_branch: spb,
            systems_per_revolution: spr,
        })
    }
}

} // verus!
