//! The host object file, as the machine sees it: sections, relocations and
//! small-data-area bases, held as plain values.

use vstd::prelude::*;

verus! {

/// A section-relative address: the index of a section and an absolute
/// 32-bit address within the object.
#[derive(Debug, Copy, Clone, Eq, PartialEq, Structural)]
pub struct SectionAddress {
    pub section: usize,
    pub address: u32,
}

impl SectionAddress {
    pub open spec fn spec_with_offset(self, rhs: u32) -> SectionAddress {
        SectionAddress { section: self.section, address: self.address.wrapping_add(rhs) }
    }

    /// Advance the address by an unsigned offset (the address wraps).
    pub fn with_offset(self, rhs: u32) -> (r: SectionAddress)
        ensures
            r == self.spec_with_offset(rhs),
    {
        SectionAddress { section: self.section, address: self.address.wrapping_add(rhs) }
    }

    pub open spec fn spec_offset(self, rhs: i32) -> SectionAddress {
        SectionAddress { section: self.section, address: self.address.wrapping_add_signed(rhs) }
    }

    /// Advance the address by a signed offset (the address wraps).
    pub fn offset(self, rhs: i32) -> (r: SectionAddress)
        ensures
            r == self.spec_offset(rhs),
    {
        SectionAddress { section: self.section, address: self.address.wrapping_add_signed(rhs) }
    }
}

/// Where a relocated operand points.
#[derive(Debug, Copy, Clone, Eq, PartialEq, Structural)]
pub enum RelocationTarget {
    /// The target lies at a known section-relative address.
    Address(SectionAddress),
    /// The target is a symbol outside the object.
    External,
}

/// One entry of the host's relocation table: the instruction it annotates
/// and where its immediate operand points.
#[derive(Debug, Copy, Clone, Eq, PartialEq, Structural)]
pub struct Relocation {
    pub at: SectionAddress,
    pub target: RelocationTarget,
}

/// Whether the object is a linked executable or a relocatable object.
#[derive(Debug, Copy, Clone, Eq, PartialEq, Structural)]
pub enum ObjKind {
    Executable,
    Relocatable,
}

/// A section's extent in the address space.
#[derive(Debug, Copy, Clone, Eq, PartialEq, Structural)]
pub struct ObjSection {
    pub address: u32,
    pub size: u32,
}

impl ObjSection {
    pub open spec fn spec_contains(self, addr: u32) -> bool {
        self.address <= addr < self.address + self.size
    }

    /// Whether `addr` falls inside this section.
    pub fn contains(self, addr: u32) -> (r: bool)
        ensures
            r == self.spec_contains(addr),
    {
        self.address <= addr && addr - self.address < self.size
    }
}

/// The host object: kind, section layout, relocation table and the optional
/// small-data-area base pointers.
#[derive(Debug, Clone, Eq, PartialEq)]
pub struct ObjInfo {
    pub kind: ObjKind,
    pub sections: Vec<ObjSection>,
    pub relocations: Vec<Relocation>,
    pub sda2_base: Option<u32>,
    pub sda_base: Option<u32>,
}

/// The first relocation at or after index `i` that annotates `ins_addr`.
pub open spec fn spec_relocation_from(
    relocs: Seq<Relocation>,
    ins_addr: SectionAddress,
    i: int,
) -> Option<RelocationTarget>
    decreases relocs.len() - i,
{
    if i < 0 || i >= relocs.len() {
        None
    } else if relocs[i].at == ins_addr {
        Some(relocs[i].target)
    } else {
        spec_relocation_from(relocs, ins_addr, i + 1)
    }
}

/// The relocation attached to the instruction at `ins_addr`, if any.
pub open spec fn spec_relocation_target_for(obj: ObjInfo, ins_addr: SectionAddress) -> Option<
    RelocationTarget,
> {
    spec_relocation_from(obj.relocations@, ins_addr, 0)
}

/// Look up the relocation attached to the instruction at `ins_addr`.
pub fn relocation_target_for(obj: &ObjInfo, ins_addr: SectionAddress) -> (r: Option<
    RelocationTarget,
>)
    ensures
        r == spec_relocation_target_for(*obj, ins_addr),
{
    let n = obj.relocations.len();
    let mut i: usize = 0;
    while i < n
        invariant
            i <= n,
            n == obj.relocations@.len(),
            spec_relocation_from(obj.relocations@, ins_addr, 0) == spec_relocation_from(
                obj.relocations@,
                ins_addr,
                i as int,
            ),
        decreases n - i,
    {
        let rel = obj.relocations[i];
        if rel.at.section == ins_addr.section && rel.at.address == ins_addr.address {
            return Some(rel.target);
        }
        i = i + 1;
    }
    None
}

/// The index of the first section whose extent contains `addr`, searching
/// from index `i`.
pub open spec fn spec_section_at(sections: Seq<ObjSection>, addr: u32, i: int) -> Option<usize>
    decreases sections.len() - i,
{
    if i < 0 || i >= sections.len() {
        None
    } else if sections[i].spec_contains(addr) {
        Some(i as usize)
    } else {
        spec_section_at(sections, addr, i + 1)
    }
}

impl ObjInfo {
    /// Find the section containing `addr`, when the object is an executable.
    pub fn section_at_address(&self, addr: u32) -> (r: Option<usize>)
        ensures
            r == spec_section_at(self.sections@, addr, 0),
    {
        let n = self.sections.len();
        let mut i: usize = 0;
        while i < n
            invariant
                i <= n,
                n == self.sections@.len(),
                spec_section_at(self.sections@, addr, 0) == spec_section_at(
                    self.sections@,
                    addr,
                    i as int,
                ),
            decreases n - i,
        {
            if self.sections[i].contains(addr) {
                return Some(i);
            }
            i = i + 1;
        }
        None
    }
}

/// How a plain 32-bit value resolves to an address: an explicit relocation
/// wins; otherwise an executable is searched by section extent, while a
/// relocatable object only resolves targets inside the current section.
pub open spec fn spec_section_address_for(
    obj: ObjInfo,
    ins_addr: SectionAddress,
    target_addr: u32,
) -> Option<RelocationTarget> {
    if spec_relocation_target_for(obj, ins_addr) is Some {
        spec_relocation_target_for(obj, ins_addr)
    } else if obj.kind == ObjKind::Executable {
        match spec_section_at(obj.sections@, target_addr, 0) {
            Some(i) => Some(
                RelocationTarget::Address(SectionAddress { section: i, address: target_addr }),
            ),
            None => None,
        }
    } else if ins_addr.section < obj.sections@.len() && obj.sections@[
        ins_addr.section as int
    ].spec_contains(target_addr) {
        Some(RelocationTarget::Address(SectionAddress { section: ins_addr.section, address: target_addr }))
    } else {
        None
    }
}

/// Resolve a plain 32-bit value to a section-relative address.
pub fn section_address_for(obj: &ObjInfo, ins_addr: SectionAddress, target_addr: u32) -> (r:
    Option<RelocationTarget>)
    ensures
        r == spec_section_address_for(*obj, ins_addr, target_addr),
{
    if let Some(target) = relocation_target_for(obj, ins_addr) {
        return Some(target);
    }
    if matches!(obj.kind, ObjKind::Executable) {
        return match obj.section_at_address(target_addr) {
            Some(i) => Some(
                RelocationTarget::Address(SectionAddress { section: i, address: target_addr }),
            ),
            None => None,
        };
    }
    if ins_addr.section < obj.sections.len() && obj.sections[ins_addr.section].contains(
        target_addr,
    ) {
        Some(RelocationTarget::Address(SectionAddress { section: ins_addr.section, address: target_addr }))
    } else {
        None
    }
}

} // verus!
