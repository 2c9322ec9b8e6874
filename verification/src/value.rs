//! Abstract register values, GPR entries with their audit addresses, and
//! the refinement of values along conditional-branch edges.

use vstd::prelude::*;

use crate::obj::{ObjInfo, RelocationTarget, SectionAddress, spec_section_address_for, section_address_for};

verus! {

/// Abstract value of a general-purpose register.  The lattice is flat:
/// `Unknown` is the top, and no other value lies below another.
#[derive(Debug, Copy, Clone, Eq, PartialEq, Structural)]
pub enum GprValue {
    /// Nothing is known about the register.
    Unknown,
    /// The register holds this exact 32-bit value.
    Constant(u32),
    /// The register holds a relocated address.
    Address(RelocationTarget),
    /// The register mirrors the outcome of a comparison into the given CR
    /// field (0..8).
    ComparisonResult(u8),
    /// The register holds a value within `[min, max]` with the given stride.
    Range { min: u32, max: u32, step: u32 },
    /// The register holds a value loaded from `address[i]` for an index
    /// `i` within `[0, max_offset]`; `None` means the bound is unknown.
    /// A present bound is never zero (a zero bound is stored as `None`).
    LoadIndexed { address: RelocationTarget, max_offset: Option<u32> },
}

/// A GPR entry: the abstract value plus the audit addresses of the
/// instructions that materialised the high and low halves of an address.
#[derive(Debug, Copy, Clone, Eq, PartialEq, Structural)]
pub struct Gpr {
    /// The current calculated value.
    pub value: GprValue,
    /// Address of the instruction that loaded the hi part of this GPR.
    pub hi_addr: Option<SectionAddress>,
    /// Address of the instruction that loaded the lo part of this GPR.
    pub lo_addr: Option<SectionAddress>,
}

impl Gpr {
    /// A register about which nothing is known.
    pub open spec fn spec_unknown() -> Gpr {
        Gpr { value: GprValue::Unknown, hi_addr: None, lo_addr: None }
    }

    pub fn unknown() -> (r: Gpr)
        ensures
            r == Gpr::spec_unknown(),
    {
        Gpr { value: GprValue::Unknown, hi_addr: None, lo_addr: None }
    }

    /// A directly produced value: both audit addresses are cleared.
    pub open spec fn spec_direct(value: GprValue) -> Gpr {
        Gpr { value, hi_addr: None, lo_addr: None }
    }

    /// The high half of an address produced at `addr`.
    pub open spec fn spec_hi(value: GprValue, addr: SectionAddress) -> Gpr {
        Gpr { value, hi_addr: Some(addr), lo_addr: None }
    }

    /// The completed low half of an address: the hi audit address is
    /// inherited from the source GPR, and the lo audit address is the
    /// source's own lo address when chained, else `addr` itself.
    pub open spec fn spec_lo(value: GprValue, addr: SectionAddress, hi_gpr: Gpr) -> Gpr {
        Gpr {
            value,
            hi_addr: hi_gpr.hi_addr,
            lo_addr: Some(
                match hi_gpr.lo_addr {
                    Some(lo) => lo,
                    None => addr,
                },
            ),
        }
    }

    /// Set a directly produced value, clearing both audit addresses.
    pub fn set_direct(&mut self, value: GprValue)
        ensures
            *final(self) == Gpr::spec_direct(value),
    {
        self.value = value;
        self.hi_addr = None;
        self.lo_addr = None;
    }

    /// Set the high half of an address produced at `addr`.
    pub fn set_hi(&mut self, value: GprValue, addr: SectionAddress)
        ensures
            *final(self) == Gpr::spec_hi(value, addr),
    {
        self.value = value;
        self.hi_addr = Some(addr);
        self.lo_addr = None;
    }

    /// Set the completed low half of an address produced at `addr` from the
    /// source register `hi_gpr`.
    pub fn set_lo(&mut self, value: GprValue, addr: SectionAddress, hi_gpr: Gpr)
        ensures
            *final(self) == Gpr::spec_lo(value, addr, hi_gpr),
    {
        self.value = value;
        self.hi_addr = hi_gpr.hi_addr;
        self.lo_addr = Some(
            match hi_gpr.lo_addr {
                Some(lo) => lo,
                None => addr,
            },
        );
    }

    /// The address this register denotes, if any: a constant resolves
    /// through the object's layout, an address stands for itself.
    pub open spec fn spec_address(self, obj: ObjInfo, ins_addr: SectionAddress) -> Option<
        RelocationTarget,
    > {
        match self.value {
            GprValue::Constant(value) => spec_section_address_for(obj, ins_addr, value),
            GprValue::Address(target) => Some(target),
            _ => None,
        }
    }

    /// Resolve the register to an address, if it denotes one.
    pub fn address(&self, obj: &ObjInfo, ins_addr: SectionAddress) -> (r: Option<
        RelocationTarget,
    >)
        ensures
            r == self.spec_address(*obj, ins_addr),
    {
        match self.value {
            GprValue::Constant(value) => section_address_for(obj, ins_addr, value),
            GprValue::Address(target) => Some(target),
            _ => None,
        }
    }
}

/// One CR field: the two compared values and the comparison's signedness.
#[derive(Debug, Copy, Clone, Eq, PartialEq, Structural)]
pub struct Cr {
    /// The left-hand value of this comparison.
    pub left: GprValue,
    /// The right-hand value of this comparison.
    pub right: GprValue,
    /// Whether this comparison is signed.
    pub signed: bool,
}

impl Cr {
    /// A CR field holding no information.
    pub open spec fn spec_unknown() -> Cr {
        Cr { left: GprValue::Unknown, right: GprValue::Unknown, signed: false }
    }

    pub fn unknown() -> (r: Cr)
        ensures
            r == Cr::spec_unknown(),
    {
        Cr { left: GprValue::Unknown, right: GprValue::Unknown, signed: false }
    }
}

/// The refined replacement pair for the compare's left operand along the
/// not-taken (`false`) and taken (`true`) edges of a branch on CR bit `crb`
/// (`lt` = 0, `gt` = 1, `eq` = 2, `so` = 3).  Bound arithmetic wraps.
pub open spec fn spec_split_values_by_crb(crb: u8, left: GprValue, right: GprValue) -> (GprValue,
    GprValue,
) {
    if crb == 0 {
        match (left, right) {
            (GprValue::Range { min, max, step }, GprValue::Constant(value)) => (
                GprValue::Range {
                    min: if min >= value { min } else { value },
                    max: if max >= value { max } else { value },
                    step,
                },
                GprValue::Range {
                    min: if min <= value.wrapping_sub(1) { min } else { value.wrapping_sub(1) },
                    max: if max <= value.wrapping_sub(1) { max } else { value.wrapping_sub(1) },
                    step,
                },
            ),
            (_, GprValue::Constant(value)) => (
                GprValue::Range { min: value, max: u32::MAX, step: 1 },
                GprValue::Range { min: 0, max: value.wrapping_sub(1), step: 1 },
            ),
            _ => (left, left),
        }
    } else if crb == 1 {
        match (left, right) {
            (GprValue::Range { min, max, step }, GprValue::Constant(value)) => (
                GprValue::Range {
                    min: if min <= value { min } else { value },
                    max: if max <= value { max } else { value },
                    step,
                },
                GprValue::Range {
                    min: if min >= value.wrapping_add(1) { min } else { value.wrapping_add(1) },
                    max: if max >= value.wrapping_add(1) { max } else { value.wrapping_add(1) },
                    step,
                },
            ),
            (_, GprValue::Constant(value)) => (
                GprValue::Range { min: 0, max: value, step: 1 },
                GprValue::Range { min: value.wrapping_add(1), max: u32::MAX, step: 1 },
            ),
            _ => (left, left),
        }
    } else if crb == 2 {
        match (left, right) {
            (GprValue::Constant(l), GprValue::Constant(r)) => (
                if l == r {
                    GprValue::Unknown
                } else {
                    left
                },
                GprValue::Constant(r),
            ),
            (_, GprValue::Constant(value)) => (left, GprValue::Constant(value)),
            _ => (left, left),
        }
    } else {
        (left, left)
    }
}

/// Given a condition register bit, calculate the replacement register
/// values for the not-taken and taken edges (false / true).
pub fn split_values_by_crb(crb: u8, left: GprValue, right: GprValue) -> (r: (GprValue, GprValue))
    requires
        crb < 4,
    ensures
        r == spec_split_values_by_crb(crb, left, right),
{
    if crb == 0 {
        match (left, right) {
            (GprValue::Range { min, max, step }, GprValue::Constant(value)) => (
                // left >= right
                GprValue::Range {
                    min: if min >= value { min } else { value },
                    max: if max >= value { max } else { value },
                    step,
                },
                // left < right
                GprValue::Range {
                    min: if min <= value.wrapping_sub(1) { min } else { value.wrapping_sub(1) },
                    max: if max <= value.wrapping_sub(1) { max } else { value.wrapping_sub(1) },
                    step,
                },
            ),
            (_, GprValue::Constant(value)) => (
                // left >= right
                GprValue::Range { min: value, max: u32::MAX, step: 1 },
                // left < right
                GprValue::Range { min: 0, max: value.wrapping_sub(1), step: 1 },
            ),
            _ => (left, left),
        }
    } else if crb == 1 {
        match (left, right) {
            (GprValue::Range { min, max, step }, GprValue::Constant(value)) => (
                // left <= right
                GprValue::Range {
                    min: if min <= value { min } else { value },
                    max: if max <= value { max } else { value },
                    step,
                },
                // left > right
                GprValue::Range {
                    min: if min >= value.wrapping_add(1) { min } else { value.wrapping_add(1) },
                    max: if max >= value.wrapping_add(1) { max } else { value.wrapping_add(1) },
                    step,
                },
            ),
            (_, GprValue::Constant(value)) => (
                // left <= right
                GprValue::Range { min: 0, max: value, step: 1 },
                // left > right
                GprValue::Range { min: value.wrapping_add(1), max: u32::MAX, step: 1 },
            ),
            _ => (left, left),
        }
    } else if crb == 2 {
        match (left, right) {
            (GprValue::Constant(l), GprValue::Constant(r)) => (
                // left != right
                if l == r {
                    GprValue::Unknown
                } else {
                    left
                },
                // left == right
                GprValue::Constant(r),
            ),
            (_, GprValue::Constant(value)) => (
                // left != right
                left,
                // left == right
                GprValue::Constant(value),
            ),
            _ => (left, left),
        }
    } else {
        // so: no refinement
        (left, left)
    }
}

} // verus!
