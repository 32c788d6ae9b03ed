//! Where each star of a galaxy goes, as integers: its arm, its place on the
//! arm, its color, and how far along its arm's spiral it stands.
use crate::config::{config_valid, plan_of, per_branch, GalaxyConfig, GalaxyError, GalaxyPlan};
use crate::palette::{branch_color, color_of_branch, palette_entry, PALETTE_SIZE};
use vstd::arithmetic::div_mod::lemma_fundamental_div_mod;
use vstd::prelude::*;

verus! {

/// One star of the layout.  The ideal position of the star lies at angle
/// `branch / branch_count + phase / systems_per_revolution` of a full turn,
/// at revolution ratio `index / systems_per_revolution`.
#[derive(Clone, Copy, Debug, PartialEq, Eq, Structural)]
pub struct StarSlot {
    /// The arm, from `0`.
    pub branch: u32,
    /// Place on the arm, from the innermost star outward.
    pub index: u32,
    /// The arm's color.
    pub color: crate::palette::StarColor,
    /// Full turns the arm has completed before this star.
    pub revolution: u32,
    /// Steps into the current turn.
    pub phase: u32,
}

/// A generated galaxy: its plan and its stars, in emission order.
#[derive(Debug)]
pub struct GalaxyLayout {
    /// The counts and divisors the settings fixed.
    pub plan: GalaxyPlan,
    /// Every star, arm by arm.
    pub stars: Vec<StarSlot>,
}

/// Star `index` of arm `branch`.
pub open spec fn slot_of(p: GalaxyPlan, branch: nat, index: nat) -> StarSlot
    recommends
        p.wf(),
{
    StarSlot {
        branch: branch as u32,
        index: index as u32,
        color: color_of_branch(branch),
        revolution: (index / (p.systems_per_revolution as nat)) as u32,
        phase: (index % (p.systems_per_revolution as nat)) as u32,
    }
}

/// `s` lists every star of the plan: arms in ascending order, and within an
/// arm the stars from the innermost outward.
pub open spec fn is_layout_of(p: GalaxyPlan, s: Seq<StarSlot>) -> bool {
    &&& s.len() == p.star_count()
    &&& forall|b: nat, i: nat|
        b < p.branch_count && i < p.systems_per_branch ==> s[b * p.systems_per_branch + i]
            == #[trigger] slot_of(p, b, i)
}

/// The angle of a star's ideal position as a fraction of a full turn,
/// numerator and denominator.
pub open spec fn angle_in_turns(p: GalaxyPlan, s: StarSlot) -> (int, int) {
    (
        s.branch * p.systems_per_revolution + s.phase * p.branch_count,
        p.branch_count * p.systems_per_revolution,
    )
}

/// The distance of a star's ideal position from the center, in exact
/// arithmetic, scaled by the stars per turn: `radius + rate * index / spr`
/// times `spr`.
pub open spec fn scaled_center_dist(p: GalaxyPlan, radius: int, rate: int, s: StarSlot) -> int {
    radius * p.systems_per_revolution + rate * s.index
}

impl GalaxyPlan {
    /// Star `index` of arm `branch`; lets a caller walk the galaxy lazily.
    pub fn slot(&self, branch: u32, index: u32) -> (r: StarSlot)
        requires
            self.wf(),
        ensures
            r == slot_of(*self, branch as nat, index as nat),
    {
        StarSlot {
            branch,
            index,
            color: branch_color(branch),
            revolution: index / self.systems_per_revolution,
            phase: index % self.systems_per_revolution,
        }
    }

    /// Every star of the plan, in emission order.
    pub fn slots(&self) -> (r: Vec<StarSlot>)
        requires
            self.wf(),
        ensures
            is_layout_of(*self, r@),
    {
        let bc = self.branch_count;
        let spb = self.systems_per_branch;
        let mut v: Vec<StarSlot> = Vec::new();
        let mut b: u32 = 0;
        while b < bc
            invariant
                self.wf(),
                bc == self.branch_count,
                spb == self.systems_per_branch,
                b <= bc,
                v@.len() == b * spb,
                forall|b2: nat, i2: nat|
                    b2 < b && i2 < spb ==> v@[b2 * spb + i2] == #[trigger] slot_of(*self, b2, i2),
            decreases bc - b,
        {
            let mut i: u32 = 0;
            while i < spb
                invariant
                    self.wf(),
                    bc == self.branch_count,
                    spb == self.systems_per_branch,
                    b < bc,
                    i <= spb,
                    v@.len() == b * spb + i,
                    forall|b2: nat, i2: nat|
                        b2 < b && i2 < spb ==> v@[b2 * spb + i2] == #[trigger] slot_of(
                            *self,
                            b2,
                            i2,
                        ),
                    forall|i2: nat| i2 < i ==> v@[b * spb + i2] == #[trigger] slot_of(*self, b as nat, i2),
                decreases spb - i,
            {
                let ghost before = v@;
                let s = self.slot(b, i);
                v.push(s);
                proof {
                    assert forall|b2: nat, i2: nat| b2 < b && i2 < spb implies v@[b2 * spb + i2]
                        == #[trigger] slot_of(*self, b2, i2) by {
                        assert(b2 * spb + i2 < b * spb) by (nonlinear_arith)
                            requires
                                b2 < b,
                                i2 < spb,
                        ;
                        assert(before[b2 * spb + i2] == slot_of(*self, b2, i2));
                    }
                    assert forall|i2: nat| i2 < i + 1 implies v@[b * spb + i2] == #[trigger] slot_of(
                        *self,
                        b as nat,
                        i2,
                    ) by {
                        if i2 < i {
                            assert(before[b * spb + i2] == slot_of(*self, b as nat, i2));
                        }
                    }
                }
                i = i + 1;
            }
            proof {
                assert forall|b2: nat, i2: nat| b2 < b + 1 && i2 < spb implies v@[b2 * spb + i2]
                    == #[trigger] slot_of(*self, b2, i2) by {
                    if b2 == b {
                        assert(v@[b * spb + i2] == slot_of(*self, b as nat, i2));
                    }
                }
                assert(v@.len() == (b + 1) * spb) by (nonlinear_arith)
                    requires
                        v@.len() == b * spb + spb,
                ;
            }
            b = b + 1;
        }
        v
    }
}

/// Lays out a galaxy.  Fails with `InvalidParameter`, before anything is
/// produced, exactly when the settings are out of their domain; otherwise
/// lists `branch_count * (elem_count / branch_count)` stars in emission order.
pub fn generate(config: &GalaxyConfig) -> (r: Result<GalaxyLayout, GalaxyError>)
    ensures
        r is Ok <==> config_valid(*config),
        r is Err ==> r->Err_0 == GalaxyError::InvalidParameter,
        r is Ok ==> r->Ok_0.plan == plan_of(*config),
        r is Ok ==> is_layout_of(plan_of(*config), r->Ok_0.stars@),
        r is Ok ==> r->Ok_0.stars@.len() == config.branch_count * (config.elem_count
            / config.branch_count),
{
    match config.plan() {
        Ok(plan) => {
            let stars = plan.slots();
            Ok(GalaxyLayout { plan, stars })
        },
        Err(e) => Err(e),
    }
}

/// The layout is a function of the settings: two listings that both meet
/// the layout of one valid configuration are the same listing.
pub proof fn lemma_layout_deterministic(c: GalaxyConfig, s1: Seq<StarSlot>, s2: Seq<StarSlot>)
    requires
        config_valid(c),
        is_layout_of(plan_of(c), s1),
        is_layout_of(plan_of(c), s2),
    ensures
        s1 == s2,
{
    let p = plan_of(c);
    let spb = p.systems_per_branch as nat;
    assert forall|k: int| 0 <= k < s1.len() implies s1[k] == s2[k] by {
        assert(spb > 0) by (nonlinear_arith)
            requires
                k < p.branch_count * spb,
                0 <= k,
        ;
        lemma_fundamental_div_mod(k, spb as int);
        let b: nat = (k / spb as int) as nat;
        let i: nat = (k % spb as int) as nat;
        assert(b < p.branch_count) by (nonlinear_arith)
            requires
                k < p.branch_count * spb,
                k == spb * b + i,
                0 <= i,
        ;
        assert(b * spb + i == k) by (nonlinear_arith)
            requires
                k == spb * b + i,
        ;
        assert(s1[k] == slot_of(p, b, i));
        assert(s2[k] == slot_of(p, b, i));
    }
    assert(s1 =~= s2);
}

/// A valid configuration lays out `branch_count * (elem_count / branch_count)`
/// stars: the remainder of the division is dropped.
pub proof fn lemma_star_count(c: GalaxyConfig)
    requires
        config_valid(c),
    ensures
        plan_of(c).star_count() == c.branch_count * (c.elem_count / c.branch_count),
{
}

/// The first star of every arm lies on the arm's starting angle,
/// `branch / branch_count` of a full turn, and has completed no turn yet.
pub proof fn lemma_first_star_at_start_angle(p: GalaxyPlan, branch: nat)
    requires
        p.wf(),
        branch < p.branch_count,
    ensures
        slot_of(p, branch, 0).phase == 0,
        slot_of(p, branch, 0).revolution == 0,
        angle_in_turns(p, slot_of(p, branch, 0)).0 * p.branch_count == branch * angle_in_turns(
            p,
            slot_of(p, branch, 0),
        ).1,
{
    let spr = p.systems_per_revolution as int;
    let bc = p.branch_count as int;
    assert((branch * spr + 0 * bc) * bc == branch * (bc * spr)) by (nonlinear_arith);
}

/// Every star of arm `branch` has the palette color at `branch mod 3`, so
/// arms whose numbers differ by a multiple of three share their color.
pub proof fn lemma_branch_colors(p: GalaxyPlan, b1: nat, b2: nat, i: nat, j: nat)
    requires
        p.wf(),
        b1 % (PALETTE_SIZE as nat) == b2 % (PALETTE_SIZE as nat),
    ensures
        slot_of(p, b1, i).color == palette_entry(b1 % (PALETTE_SIZE as nat)),
        slot_of(p, b1, i).color == slot_of(p, b2, j).color,
{
}

/// With a rate of growth that is not negative, a star further along an arm
/// is at least as far from the center, in exact arithmetic, as one before it.
pub proof fn lemma_center_dist_monotonic(
    p: GalaxyPlan,
    radius: int,
    rate: int,
    branch: nat,
    i: nat,
    j: nat,
)
    requires
        p.wf(),
        rate >= 0,
        i <= j,
        j < p.systems_per_branch,
    ensures
        scaled_center_dist(p, radius, rate, slot_of(p, branch, i)) <= scaled_center_dist(
            p,
            radius,
            rate,
            slot_of(p, branch, j),
        ),
{
    assert(rate * i <= rate * j) by (nonlinear_arith)
        requires
            rate >= 0,
            i <= j,
    ;
}

/// Fewer stars than arms make an empty galaxy, not an error.
pub proof fn lemma_fewer_stars_than_arms(c: GalaxyConfig)
    requires
        config_valid(c),
        c.elem_count < c.branch_count,
    ensures
        plan_of(c).star_count() == 0,
{
    let (e, b) = (c.elem_count as int, c.branch_count as int);
    assert(e / b == 0) by (nonlinear_arith)
        requires
            0 <= e < b,
    ;
    assert(plan_of(c).systems_per_branch == 0);
    assert(plan_of(c).star_count() == c.branch_count as nat * 0);
}

/// A standard deviation with its sign bit set (any negative value, or `-0`)
/// makes the configuration invalid.
pub proof fn lemma_negative_deviation_rejected(c: GalaxyConfig)
    requires
        c.depth_std_dev_bits >= 0x8000_0000 || c.lat_offset_std_dev_bits >= 0x8000_0000,
    ensures
        !config_valid(c),
{
}

} // verus!
