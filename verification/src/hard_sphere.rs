//! Which rule gives each component its diameter.
//!
//! The diameters themselves are real arithmetic on the temperature and are not
//! computed here. What is decided here is which components take the
//! temperature-dependent segment diameter, and which components are rigid ions
//! whose hard-sphere diameter is the fixed fraction 0.88 of their segment
//! diameter instead of the temperature-corrected one.

use vstd::prelude::*;
use crate::arrays::NumberArray;
use crate::number::Number;
use crate::parameters::ElectrolytePcSaftParameters;

verus! {

/// The rule that gives a component its hard-sphere diameter.
#[derive(Clone, Copy, Debug, PartialEq, Eq, Structural)]
pub enum HardSphereRule {
    /// The segment diameter, reduced by a correction that depends on the
    /// temperature and on the energy parameter.
    TemperatureCorrected,
    /// A fixed fraction of the segment diameter, whatever the temperature and
    /// the energy parameter.
    RigidIon,
}

/// The shape of the molecules of a mixture.
#[derive(Clone, Debug)]
pub enum MonomerShape {
    /// Every component is one sphere; the number of components.
    Spherical(usize),
    /// The components are chains; the segment number of each component.
    NonSpherical(Vec<Number>),
}

impl ElectrolytePcSaftParameters {
    /// The shape of the molecules: every component is a chain of as many
    /// segments as its segment number says.
    pub fn monomer_shape(&self) -> (r: MonomerShape)
        ensures
            r matches MonomerShape::NonSpherical(m) && m@ == self.m@,
    {
        MonomerShape::NonSpherical(self.m.to_vec())
    }

    /// The segment diameter of each component, where `corrected` holds what the
    /// temperature correlation gives for it: a component that is listed as
    /// temperature-dependent has the corrected value, every other component its
    /// own diameter.
    pub open spec fn diameters_at(&self, corrected: Seq<Number>) -> Seq<Number> {
        Seq::new(
            self.sigma@.len(),
            |i: int|
                if self.sigma_t_comp@.contains(i as usize) {
                    corrected[i]
                } else {
                    self.sigma@[i]
                },
        )
    }

    /// The rule of each component: a component that is listed as an ion is a
    /// rigid ion, every other component has the temperature-corrected diameter.
    pub open spec fn hard_sphere_rules(&self) -> Seq<HardSphereRule> {
        Seq::new(
            self.sigma@.len(),
            |i: int|
                if self.ionic_comp@.contains(i as usize) {
                    HardSphereRule::RigidIon
                } else {
                    HardSphereRule::TemperatureCorrected
                },
        )
    }

    /// The segment diameter of each component at one temperature.
    ///
    /// `corrected` holds for each component the value of the temperature
    /// correlation of its diameter at that temperature. A component that is
    /// listed as temperature-dependent takes that value; every other component
    /// keeps its own diameter, whatever `corrected` holds.
    pub fn sigma_t(&self, corrected: &Vec<Number>) -> (r: NumberArray)
        requires
            corrected@.len() == self.sigma@.len(),
        ensures
            r@ == self.diameters_at(corrected@),
    {
        let n: usize = self.sigma.len();
        let mut out: Vec<Number> = self.sigma.to_vec();
        let listed: usize = self.sigma_t_comp.len();
        let mut k: usize = 0;
        while k < listed
            invariant
                n == self.sigma@.len(),
                corrected@.len() == n,
                listed == self.sigma_t_comp@.len(),
                k <= listed,
                out@.len() == n,
                forall|i: int|
                    0 <= i < n ==> #[trigger] out@[i] == if self.sigma_t_comp@.take(
                        k as int,
                    ).contains(i as usize) {
                        corrected@[i]
                    } else {
                        self.sigma@[i]
                    },
            decreases listed - k,
        {
            let c: usize = self.sigma_t_comp.get(k);
            let ghost before = self.sigma_t_comp@.take(k as int);
            let ghost after = self.sigma_t_comp@.take(k + 1);
            assert(after =~= before.push(c));
            assert forall|i: usize| after.contains(i) <==> (before.contains(i) || i == c) by {
                if before.contains(i) {
                    let a = choose|a: int| 0 <= a < before.len() && before[a] == i;
                    assert(after[a] == i);
                }
                if i == c {
                    assert(after[k as int] == c);
                }
            }
            if c < n {
                out.set(c, corrected[c]);
            }
            k = k + 1;
        }
        assert(self.sigma_t_comp@.take(listed as int) =~= self.sigma_t_comp@);
        assert(out@ =~= self.diameters_at(corrected@));
        NumberArray::from_vec(out)
    }

    /// The rule that gives each component its hard-sphere diameter: a component
    /// that is listed as an ion is a rigid ion, every other component has the
    /// temperature-corrected diameter.
    pub fn hs_diameter_rules(&self) -> (r: Vec<HardSphereRule>)
        ensures
            r@ == self.hard_sphere_rules(),
    {
        let n: usize = self.sigma.len();
        let mut out: Vec<HardSphereRule> = Vec::new();
        let mut i: usize = 0;
        while i < n
            invariant
                n == self.sigma@.len(),
                i <= n,
                out@.len() == i,
                forall|a: int| 0 <= a < i ==> #[trigger] out@[a] == HardSphereRule::TemperatureCorrected,
            decreases n - i,
        {
            out.push(HardSphereRule::TemperatureCorrected);
            i = i + 1;
        }
        let listed: usize = self.ionic_comp.len();
        let mut k: usize = 0;
        while k < listed
            invariant
                n == self.sigma@.len(),
                listed == self.ionic_comp@.len(),
                k <= listed,
                out@.len() == n,
                forall|i: int|
                    0 <= i < n ==> #[trigger] out@[i] == if self.ionic_comp@.take(
                        k as int,
                    ).contains(i as usize) {
                        HardSphereRule::RigidIon
                    } else {
                        HardSphereRule::TemperatureCorrected
                    },
            decreases listed - k,
        {
            let c: usize = self.ionic_comp.get(k);
            let ghost before = self.ionic_comp@.take(k as int);
            let ghost after = self.ionic_comp@.take(k + 1);
            assert(after =~= before.push(c));
            assert forall|i: usize| after.contains(i) <==> (before.contains(i) || i == c) by {
                if before.contains(i) {
                    let a = choose|a: int| 0 <= a < before.len() && before[a] == i;
                    assert(after[a] == i);
                }
                if i == c {
                    assert(after[k as int] == c);
                }
            }
            if c < n {
                out.set(c, HardSphereRule::RigidIon);
            }
            k = k + 1;
        }
        assert(self.ionic_comp@.take(listed as int) =~= self.ionic_comp@);
        assert(out@ =~= self.hard_sphere_rules());
        out
    }
}

} // verus!
