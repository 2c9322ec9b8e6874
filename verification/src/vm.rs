//! The virtual machine: 32 GPRs, 8 CR fields and the CTR, its cloning
//! disciplines at control-flow forks, and the per-instruction transfer
//! function `step`.

use vstd::prelude::*;

use crate::bits::{mask_value, rotl32, spec_mask, spec_rotl32};
use crate::ins::{
    Ins, Opcode, gpr_defs_of, is_load_op, is_load_store_op, is_update_op, spec_aa, spec_bi,
    spec_bo, spec_crfd, spec_is_load_op, spec_is_load_store_op, spec_is_update_op, spec_l_bit,
    spec_lk, spec_mb, spec_me, spec_ra, spec_rb, spec_rd, spec_rs, spec_sh, spec_simm, spec_spr,
    spec_uimm, decode_defs,
};
use crate::obj::{
    ObjInfo, RelocationTarget, SectionAddress, relocation_target_for, section_address_for,
    spec_relocation_target_for, spec_section_address_for,
};
use crate::value::{Cr, Gpr, GprValue, spec_split_values_by_crb, split_values_by_crb};

verus! {

/// The machine state: general-purpose registers, condition register
/// fields and the count register.
#[derive(Debug, Copy, Clone, Eq, PartialEq)]
pub struct VM {
    /// General purpose registers.
    pub gpr: [Gpr; 32],
    /// Condition registers.
    pub cr: [Cr; 8],
    /// Count register.
    pub ctr: GprValue,
}

/// The machine state as mathematics: plain sequences of register entries.
#[verifier::ext_equal]
pub struct VmModel {
    pub gprs: Seq<Gpr>,
    pub crs: Seq<Cr>,
    pub ctr: GprValue,
}

impl View for VM {
    type V = VmModel;

    open spec fn view(&self) -> VmModel {
        VmModel { gprs: self.gpr@, crs: self.cr@, ctr: self.ctr }
    }
}

impl VmModel {
    /// Replace one GPR entry whole.
    pub open spec fn with_gpr(self, d: int, g: Gpr) -> VmModel {
        VmModel { gprs: self.gprs.update(d, g), ..self }
    }

    /// Set a directly produced value: both audit addresses cleared.
    pub open spec fn with_direct(self, d: int, v: GprValue) -> VmModel {
        self.with_gpr(d, Gpr::spec_direct(v))
    }

    /// Set the high half of an address produced at `addr`.
    pub open spec fn with_hi(self, d: int, v: GprValue, addr: SectionAddress) -> VmModel {
        self.with_gpr(d, Gpr::spec_hi(v, addr))
    }

    /// Set the completed low half of an address produced at `addr` from the
    /// source register entry `src`.
    pub open spec fn with_lo(
        self,
        d: int,
        v: GprValue,
        addr: SectionAddress,
        src: Gpr,
    ) -> VmModel {
        self.with_gpr(d, Gpr::spec_lo(v, addr, src))
    }

    /// Replace one GPR's value, keeping its audit addresses.
    pub open spec fn with_value(self, d: int, v: GprValue) -> VmModel {
        self.with_gpr(d, Gpr { value: v, ..self.gprs[d] })
    }

    /// Replace one CR field.
    pub open spec fn with_cr(self, f: int, cr: Cr) -> VmModel {
        VmModel { crs: self.crs.update(f, cr), ..self }
    }

    /// Replace the count register.
    pub open spec fn with_ctr(self, v: GprValue) -> VmModel {
        VmModel { ctr: v, ..self }
    }
}

/// The fresh machine: every register unknown.
pub open spec fn fresh_model() -> VmModel {
    VmModel {
        gprs: Seq::new(32, |i: int| Gpr::spec_unknown()),
        crs: Seq::new(8, |i: int| Cr::spec_unknown()),
        ctr: GprValue::Unknown,
    }
}

/// The fresh machine seeded with the small-data-area bases: `r2` takes
/// `sda2_base` and `r13` takes `sda_base`, when provided.
pub open spec fn seeded_model(sda2_base: Option<u32>, sda_base: Option<u32>) -> VmModel {
    let m0 = fresh_model();
    let m1 = match sda2_base {
        Some(v) => m0.with_value(2, GprValue::Constant(v)),
        None => m0,
    };
    match sda_base {
        Some(v) => m1.with_value(13, GprValue::Constant(v)),
        None => m1,
    }
}

/// The machine handed to a called function: fresh, with only the SDA base
/// values of `r2` and `r13` preserved (no audit addresses).
pub open spec fn link_model(m: VmModel) -> VmModel {
    fresh_model().with_value(2, m.gprs[2].value).with_value(13, m.gprs[13].value)
}

/// The machine after a call returns: the dedicated registers `r1`, `r2`,
/// `r13` and the non-volatile registers `r14..r31` are kept whole, audit
/// addresses included; everything else is fresh.
pub open spec fn return_model(m: VmModel) -> VmModel {
    VmModel {
        gprs: Seq::new(
            32,
            |i: int|
                if i == 1 || i == 2 || i == 13 || 14 <= i < 32 {
                    m.gprs[i]
                } else {
                    Gpr::spec_unknown()
                },
        ),
        crs: Seq::new(8, |i: int| Cr::spec_unknown()),
        ctr: GprValue::Unknown,
    }
}

/// The machine with `value` installed in every GPR still tagged as the
/// comparison result of CR field `crf` (audit addresses kept).
pub open spec fn set_cmp_model(m: VmModel, value: GprValue, crf: usize) -> VmModel {
    VmModel {
        gprs: Seq::new(
            m.gprs.len(),
            |i: int|
                if m.gprs[i].value == GprValue::ComparisonResult(crf as u8) {
                    Gpr { value, ..m.gprs[i] }
                } else {
                    m.gprs[i]
                },
        ),
        ..m
    }
}

impl VM {
    /// A fresh machine: every register unknown.
    #[inline]
    pub fn new() -> (r: Box<Self>)
        ensures
            r@ == fresh_model(),
    {
        let vm = VM {
            gpr: [Gpr::unknown(); 32],
            cr: [Cr::unknown(); 8],
            ctr: GprValue::Unknown,
        };
        proof {
            assert(vm@ =~= fresh_model());
        }
        Box::new(vm)
    }

    /// A fresh machine seeded from the object's SDA bases.
    #[inline]
    pub fn new_from_obj(obj: &ObjInfo) -> (r: Box<Self>)
        ensures
            r@ == seeded_model(obj.sda2_base, obj.sda_base),
    {
        Self::new_with_base(obj.sda2_base, obj.sda_base)
    }

    /// A fresh machine seeded with the given SDA bases.
    #[inline]
    pub fn new_with_base(sda2_base: Option<u32>, sda_base: Option<u32>) -> (r: Box<Self>)
        ensures
            r@ == seeded_model(sda2_base, sda_base),
    {
        let mut vm = Self::new();
        if let Some(value) = sda2_base {
            let mut g = vm.gpr[2];
            g.value = GprValue::Constant(value);
            vm.gpr[2] = g;
        }
        if let Some(value) = sda_base {
            let mut g = vm.gpr[13];
            g.value = GprValue::Constant(value);
            vm.gpr[13] = g;
        }
        proof {
            assert(vm@ =~= seeded_model(sda2_base, sda_base));
        }
        vm
    }

    /// The current value of a GPR.
    pub fn gpr_value(&self, reg: u8) -> (r: GprValue)
        requires
            reg < 32,
        ensures
            r == self@.gprs[reg as int].value,
    {
        self.gpr[reg as usize].value
    }

    /// The current value of the count register.
    pub fn ctr_value(&self) -> (r: GprValue)
        ensures
            r == self@.ctr,
    {
        self.ctr
    }

    /// When calling a function, only preserve SDA bases.
    #[inline]
    pub fn clone_for_link(&self) -> (r: Box<Self>)
        ensures
            r@ == link_model(self@),
    {
        let mut vm = Self::new();
        let mut g2 = vm.gpr[2];
        g2.value = self.gpr[2].value;
        vm.gpr[2] = g2;
        let mut g13 = vm.gpr[13];
        g13.value = self.gpr[13].value;
        vm.gpr[13] = g13;
        proof {
            assert(vm@ =~= link_model(self@));
        }
        vm
    }

    /// When returning from a function call, only dedicated and
    /// non-volatile registers are preserved, whole, with their audit
    /// addresses.
    #[inline]
    pub fn clone_for_return(&self) -> (r: Box<Self>)
        ensures
            r@ == return_model(self@),
    {
        let mut vm = Self::new();
        // Dedicated registers, kept whole with their audit addresses
        vm.gpr[1] = self.gpr[1];
        vm.gpr[2] = self.gpr[2];
        vm.gpr[13] = self.gpr[13];
        // Non-volatile registers
        let mut i: usize = 14;
        while i < 32
            invariant
                14 <= i <= 32,
                forall|j: int| 14 <= j < i ==> vm.gpr@[j] == self.gpr@[j],
                forall|j: int|
                    0 <= j < 32 && !(14 <= j < i) ==> vm.gpr@[j] == (if j == 1 || j == 2 || j
                        == 13 {
                        self.gpr@[j]
                    } else {
                        Gpr::spec_unknown()
                    }),
                vm.cr@ == Seq::new(8, |k: int| Cr::spec_unknown()),
                vm.ctr == GprValue::Unknown,
            decreases 32 - i,
        {
            vm.gpr[i] = self.gpr[i];
            i = i + 1;
        }
        proof {
            assert(vm@ =~= return_model(self@));
        }
        vm
    }

    /// A structural deep copy, for conditional-branch forks.
    #[inline]
    pub fn clone_all(&self) -> (r: Box<Self>)
        ensures
            r@ == self@,
    {
        Box::new(*self)
    }

    /// Install `value` in every GPR still tagged as the comparison result
    /// of CR field `crf`.
    pub fn set_comparison_result(&mut self, value: GprValue, crf: usize)
        ensures
            final(self)@ == set_cmp_model(old(self)@, value, crf),
    {
        let mut i: usize = 0;
        while i < 32
            invariant
                i <= 32,
                self.cr@ == old(self).cr@,
                self.ctr == old(self).ctr,
                forall|j: int|
                    0 <= j < i ==> self.gpr@[j] == (if old(self).gpr@[j].value
                        == GprValue::ComparisonResult(crf as u8) {
                        Gpr { value, ..old(self).gpr@[j] }
                    } else {
                        old(self).gpr@[j]
                    }),
                forall|j: int| i <= j < 32 ==> self.gpr@[j] == old(self).gpr@[j],
            decreases 32 - i,
        {
            let mut g = self.gpr[i];
            if g.value == GprValue::ComparisonResult(crf as u8) {
                g.value = value;
                self.gpr[i] = g;
            }
            i = i + 1;
        }
        proof {
            assert(self@ =~= set_cmp_model(old(self)@, value, crf));
        }
    }
}

/// Where control flow goes after a branch instruction.
#[derive(Debug, Copy, Clone, Eq, PartialEq, Structural)]
pub enum BranchTarget {
    /// Unknown branch target (CTR without known value).
    Unknown,
    /// Branch to LR.
    Return,
    /// Branch to address.
    Address(RelocationTarget),
    /// Branch to jump table.  A present size is never zero.
    JumpTable { address: RelocationTarget, size: Option<u32> },
}

/// One successor of a branching instruction, with its own machine state.
#[derive(Debug, Clone, Eq, PartialEq)]
pub struct Branch {
    /// Branch target.
    pub target: BranchTarget,
    /// Branch with link.
    pub link: bool,
    /// VM state for this branch.
    pub vm: Box<VM>,
}

/// A successor as mathematics.
#[verifier::ext_equal]
pub struct BranchModel {
    pub target: BranchTarget,
    pub link: bool,
    pub vm: VmModel,
}

impl View for Branch {
    type V = BranchModel;

    open spec fn view(&self) -> BranchModel {
        BranchModel { target: self.target, link: self.link, vm: self.vm@ }
    }
}

/// The effect of one instruction on control flow and memory.
#[derive(Debug, Clone, Eq, PartialEq)]
pub enum StepResult {
    /// Continue normally.
    Continue,
    /// Load from / store to.
    LoadStore { address: RelocationTarget, source: Gpr, source_reg: u8 },
    /// Hit illegal instruction.
    Illegal,
    /// Jump without affecting VM state.
    Jump(BranchTarget),
    /// Branch with split VM states.
    Branch(Vec<Branch>),
}

/// The effect as mathematics.
#[verifier::ext_equal]
pub enum StepModel {
    Continue,
    LoadStore { address: RelocationTarget, source: Gpr, source_reg: u8 },
    Illegal,
    Jump(BranchTarget),
    Branch(Seq<BranchModel>),
}

impl View for StepResult {
    type V = StepModel;

    open spec fn view(&self) -> StepModel {
        match self {
            StepResult::Continue => StepModel::Continue,
            StepResult::LoadStore { address, source, source_reg } => StepModel::LoadStore {
                address: *address,
                source: *source,
                source_reg: *source_reg,
            },
            StepResult::Illegal => StepModel::Illegal,
            StepResult::Jump(t) => StepModel::Jump(*t),
            StepResult::Branch(bs) => StepModel::Branch(Seq::new(bs@.len(), |i: int| bs@[i]@)),
        }
    }
}

/// The value of `add rD, rA, rB`: constants add (wrapping), an address
/// offset by a constant stays an address, anything else is unknown.
pub open spec fn spec_add_value(left: GprValue, right: GprValue) -> GprValue {
    match (left, right) {
        (GprValue::Constant(l), GprValue::Constant(r)) => GprValue::Constant(l.wrapping_add(r)),
        (
            GprValue::Address(RelocationTarget::Address(l)),
            GprValue::Constant(r),
        ) => GprValue::Address(RelocationTarget::Address(l.spec_with_offset(r))),
        (
            GprValue::Constant(l),
            GprValue::Address(RelocationTarget::Address(r)),
        ) => GprValue::Address(RelocationTarget::Address(r.spec_with_offset(l))),
        _ => GprValue::Unknown,
    }
}

pub open spec fn spec_step_add(m: VmModel, code: u32) -> (VmModel, StepModel) {
    let value = spec_add_value(m.gprs[spec_ra(code) as int].value, m.gprs[spec_rb(code) as int].value);
    (m.with_direct(spec_rd(code) as int, value), StepModel::Continue)
}

pub open spec fn spec_step_addis(
    m: VmModel,
    obj: ObjInfo,
    ins_addr: SectionAddress,
    code: u32,
) -> (VmModel, StepModel) {
    match spec_relocation_target_for(obj, ins_addr) {
        Some(target) => (
            m.with_hi(spec_rd(code) as int, GprValue::Address(target), ins_addr),
            StepModel::Continue,
        ),
        None => {
            let left = if spec_ra(code) == 0 {
                GprValue::Constant(0)
            } else {
                m.gprs[spec_ra(code) as int].value
            };
            let value = match left {
                GprValue::Constant(v) => GprValue::Constant(
                    v.wrapping_add((spec_simm(code) as u32) << 16u32),
                ),
                _ => GprValue::Unknown,
            };
            if spec_ra(code) == 0 {
                (m.with_hi(spec_rd(code) as int, value, ins_addr), StepModel::Continue)
            } else {
                (m.with_direct(spec_rd(code) as int, value), StepModel::Continue)
            }
        },
    }
}

pub open spec fn spec_step_addi(
    m: VmModel,
    obj: ObjInfo,
    ins_addr: SectionAddress,
    ins: Ins,
) -> (VmModel, StepModel) {
    let code = ins.code;
    match spec_relocation_target_for(obj, ins_addr) {
        Some(target) => (
            m.with_lo(
                spec_rd(code) as int,
                GprValue::Address(target),
                ins_addr,
                m.gprs[spec_ra(code) as int],
            ),
            StepModel::Continue,
        ),
        None => {
            let left = if spec_ra(code) == 0 && ins.op == Opcode::Addi {
                GprValue::Constant(0)
            } else {
                m.gprs[spec_ra(code) as int].value
            };
            let value = match left {
                GprValue::Constant(v) => GprValue::Constant(v.wrapping_add(spec_simm(code) as u32)),
                GprValue::Address(RelocationTarget::Address(address)) => GprValue::Address(
                    RelocationTarget::Address(address.spec_offset(spec_simm(code) as i32)),
                ),
                _ => GprValue::Unknown,
            };
            if spec_ra(code) == 0 {
                (m.with_direct(spec_rd(code) as int, value), StepModel::Continue)
            } else {
                (
                    m.with_lo(spec_rd(code) as int, value, ins_addr, m.gprs[spec_ra(code) as int]),
                    StepModel::Continue,
                )
            }
        },
    }
}

pub open spec fn spec_step_ori(
    m: VmModel,
    obj: ObjInfo,
    ins_addr: SectionAddress,
    code: u32,
) -> (VmModel, StepModel) {
    match spec_relocation_target_for(obj, ins_addr) {
        Some(target) => (
            m.with_lo(
                spec_ra(code) as int,
                GprValue::Address(target),
                ins_addr,
                m.gprs[spec_rs(code) as int],
            ),
            StepModel::Continue,
        ),
        None => {
            let value = match m.gprs[spec_rs(code) as int].value {
                GprValue::Constant(v) => GprValue::Constant(v | spec_uimm(code) as u32),
                _ => GprValue::Unknown,
            };
            (
                m.with_lo(spec_ra(code) as int, value, ins_addr, m.gprs[spec_rs(code) as int]),
                StepModel::Continue,
            )
        },
    }
}

pub open spec fn spec_step_or(m: VmModel, code: u32) -> (VmModel, StepModel) {
    if spec_rs(code) == spec_rb(code) {
        // register copy: value and both audit addresses propagate
        (m.with_gpr(spec_ra(code) as int, m.gprs[spec_rs(code) as int]), StepModel::Continue)
    } else {
        let value = match (m.gprs[spec_rs(code) as int].value, m.gprs[spec_rb(code) as int].value) {
            (GprValue::Constant(l), GprValue::Constant(r)) => GprValue::Constant(l | r),
            _ => GprValue::Unknown,
        };
        (m.with_direct(spec_ra(code) as int, value), StepModel::Continue)
    }
}

pub open spec fn spec_step_cmp(m: VmModel, ins: Ins) -> (VmModel, StepModel) {
    let code = ins.code;
    if spec_l_bit(code) == 0 {
        let left_reg = spec_ra(code) as int;
        let left = m.gprs[left_reg].value;
        let right = if ins.op == Opcode::Cmp || ins.op == Opcode::Cmpl {
            m.gprs[spec_rb(code) as int].value
        } else if ins.op == Opcode::Cmpi {
            GprValue::Constant(spec_simm(code) as u32)
        } else {
            GprValue::Constant(spec_uimm(code) as u32)
        };
        let signed = ins.op == Opcode::Cmp || ins.op == Opcode::Cmpi;
        let crf = spec_crfd(code);
        (
            m.with_cr(crf as int, Cr { left, right, signed }).with_value(
                left_reg,
                GprValue::ComparisonResult(crf as u8),
            ),
            StepModel::Continue,
        )
    } else {
        // the 64-bit compare form is not modeled
        (m, StepModel::Continue)
    }
}

pub open spec fn spec_step_rlw(m: VmModel, ins: Ins) -> (VmModel, StepModel) {
    let code = ins.code;
    let shift_opt: Option<u32> = if ins.op == Opcode::Rlwinm {
        Some(spec_sh(code))
    } else {
        match m.gprs[spec_rb(code) as int].value {
            GprValue::Constant(v) => Some(v),
            _ => None,
        }
    };
    let value = match shift_opt {
        Some(shift) => {
            let mask = spec_mask(spec_mb(code), spec_me(code));
            match m.gprs[spec_rs(code) as int].value {
                GprValue::Constant(v) => GprValue::Constant(spec_rotl32(v, shift) & mask),
                GprValue::Range { min, max, step } => GprValue::Range {
                    min: spec_rotl32(min, shift) & mask,
                    max: spec_rotl32(max, shift) & mask,
                    step: spec_rotl32(step, shift),
                },
                _ => GprValue::Range { min: 0, max: mask, step: spec_rotl32(1, shift) },
            }
        },
        None => GprValue::Unknown,
    };
    (m.with_direct(spec_ra(code) as int, value), StepModel::Continue)
}

/// Where a branch instruction goes, before the fork is built.
pub open spec fn spec_branch_target(
    m: VmModel,
    obj: ObjInfo,
    ins_addr: SectionAddress,
    ins: Ins,
) -> BranchTarget {
    if ins.op == Opcode::Bcctr {
        match m.ctr {
            GprValue::Constant(value) => match spec_section_address_for(obj, ins_addr, value) {
                Some(target) => BranchTarget::Address(target),
                None => BranchTarget::Unknown,
            },
            GprValue::Address(target) => BranchTarget::Address(target),
            GprValue::LoadIndexed { address, max_offset } => if !spec_lk(ins.code) {
                // the link-bit guard keeps an indirect call (bctrl) from
                // being taken for a jump table
                BranchTarget::JumpTable {
                    address,
                    size: match max_offset {
                        Some(n) => n.checked_add(4),
                        None => None,
                    },
                }
            } else {
                BranchTarget::Unknown
            },
            _ => BranchTarget::Unknown,
        }
    } else if ins.op == Opcode::Bclr {
        BranchTarget::Return
    } else {
        match ins.spec_branch_dest(ins_addr.address) {
            Some(value) => match spec_section_address_for(obj, ins_addr, value) {
                Some(target) => BranchTarget::Address(target),
                None => BranchTarget::Unknown,
            },
            None => BranchTarget::Unknown,
        }
    }
}

pub open spec fn spec_step_branch(
    m: VmModel,
    obj: ObjInfo,
    ins_addr: SectionAddress,
    ins: Ins,
) -> (VmModel, StepModel) {
    let code = ins.code;
    if ins.op == Opcode::B && spec_lk(code) && spec_aa(code) {
        // hand-written glue of the shape `bla 0` has no resolvable target
        (m, StepModel::Jump(BranchTarget::Unknown))
    } else {
        let target = spec_branch_target(m, obj, ins_addr, ins);
        if spec_lk(code) {
            // function call: fallthrough fork, then call fork
            (
                m,
                StepModel::Branch(
                    seq![
                        BranchModel {
                            target: BranchTarget::Address(
                                RelocationTarget::Address(ins_addr.spec_with_offset(4)),
                            ),
                            link: false,
                            vm: return_model(m),
                        },
                        BranchModel { target, link: true, vm: link_model(m) },
                    ],
                ),
            )
        } else if ins.op == Opcode::B || spec_bo(code) & 0b10100 == 0b10100 {
            (m, StepModel::Jump(target))
        } else {
            let crf = (spec_bi(code) / 4) as usize;
            let crb = (spec_bi(code) % 4) as u8;
            let pair = spec_split_values_by_crb(crb, m.crs[crf as int].left, m.crs[crf as int].right);
            let bo = spec_bo(code);
            let refined = if bo & 0b11110 == 0b00100 {
                // branch if false
                (set_cmp_model(m, pair.1, crf), set_cmp_model(m, pair.0, crf))
            } else if bo & 0b11110 == 0b01100 {
                // branch if true
                (set_cmp_model(m, pair.0, crf), set_cmp_model(m, pair.1, crf))
            } else {
                (m, m)
            };
            (
                m,
                StepModel::Branch(
                    seq![
                        BranchModel {
                            target: BranchTarget::Address(
                                RelocationTarget::Address(ins_addr.spec_with_offset(4)),
                            ),
                            link: false,
                            vm: refined.0,
                        },
                        BranchModel { target, link: spec_lk(code), vm: refined.1 },
                    ],
                ),
            )
        }
    }
}

pub open spec fn spec_step_lwzx(
    m: VmModel,
    obj: ObjInfo,
    ins_addr: SectionAddress,
    code: u32,
) -> (VmModel, StepModel) {
    let left = m.gprs[spec_ra(code) as int].spec_address(obj, ins_addr);
    let right = m.gprs[spec_rb(code) as int].value;
    let value = match (left, right) {
        (Some(address), GprValue::Range { min, max, step }) => if max < u32::MAX - 4 && max & 3
            == 0 {
            GprValue::LoadIndexed {
                address,
                max_offset: if max == 0 {
                    None
                } else {
                    Some(max)
                },
            }
        } else {
            GprValue::LoadIndexed { address, max_offset: None }
        },
        (Some(address), _) => GprValue::LoadIndexed { address, max_offset: None },
        _ => GprValue::Unknown,
    };
    (m.with_direct(spec_rd(code) as int, value), StepModel::Continue)
}

pub open spec fn spec_step_mtspr(m: VmModel, code: u32) -> (VmModel, StepModel) {
    if spec_spr(code) == 9 {
        // CTR
        (m.with_ctr(m.gprs[spec_rs(code) as int].value), StepModel::Continue)
    } else {
        (m, StepModel::Continue)
    }
}

pub open spec fn spec_step_mfspr(m: VmModel, code: u32) -> (VmModel, StepModel) {
    let value = if spec_spr(code) == 9 {
        // CTR
        m.ctr
    } else {
        GprValue::Unknown
    };
    (m.with_direct(spec_rd(code) as int, value), StepModel::Continue)
}

pub open spec fn spec_step_load_store(
    m: VmModel,
    obj: ObjInfo,
    ins_addr: SectionAddress,
    ins: Ins,
) -> (VmModel, StepModel) {
    let code = ins.code;
    let src = spec_ra(code) as int;
    let g = m.gprs[src];
    match g.value {
        GprValue::Address(target) => {
            let m2 = if spec_is_update_op(ins.op) {
                m.with_lo(src, GprValue::Address(target), ins_addr, g)
            } else {
                m
            };
            let m3 = if spec_is_load_op(ins.op) {
                m2.with_direct(spec_rd(code) as int, GprValue::Unknown)
            } else {
                m2
            };
            (
                m3,
                StepModel::LoadStore {
                    address: target,
                    source: m2.gprs[src],
                    source_reg: spec_ra(code) as u8,
                },
            )
        },
        GprValue::Constant(base) => {
            let address = base.wrapping_add(spec_simm(code) as u32);
            match spec_section_address_for(obj, ins_addr, address) {
                Some(target) => {
                    let m2 = if spec_is_update_op(ins.op) {
                        m.with_lo(src, GprValue::Address(target), ins_addr, g)
                    } else {
                        m
                    };
                    let m3 = if spec_is_load_op(ins.op) {
                        m2.with_direct(spec_rd(code) as int, GprValue::Unknown)
                    } else {
                        m2
                    };
                    (
                        m3,
                        StepModel::LoadStore {
                            address: target,
                            source: m2.gprs[src],
                            source_reg: spec_ra(code) as u8,
                        },
                    )
                },
                None => {
                    let m3 = if spec_is_load_op(ins.op) {
                        m.with_direct(spec_rd(code) as int, GprValue::Unknown)
                    } else {
                        m
                    };
                    (m3, StepModel::Continue)
                },
            }
        },
        _ => {
            let m2 = if spec_is_update_op(ins.op) {
                m.with_direct(src, GprValue::Unknown)
            } else {
                m
            };
            let m3 = if spec_is_load_op(ins.op) {
                m2.with_direct(spec_rd(code) as int, GprValue::Unknown)
            } else {
                m2
            };
            (m3, StepModel::Continue)
        },
    }
}

/// The GPRs named in `defs`, up to index `k`, cleared to unknown.
pub open spec fn clobber_defs(gprs: Seq<Gpr>, defs: Seq<u8>, k: int) -> Seq<Gpr>
    decreases k,
{
    if k <= 0 {
        gprs
    } else {
        clobber_defs(gprs, defs, k - 1).update(
            defs[k - 1] as int,
            Gpr::spec_direct(GprValue::Unknown),
        )
    }
}

/// The default write-back rule: every register the opcode defines becomes
/// unknown with cleared audit addresses.
pub open spec fn default_model(m: VmModel, code: u32) -> VmModel {
    VmModel {
        gprs: clobber_defs(m.gprs, gpr_defs_of(code), gpr_defs_of(code).len() as int),
        ..m
    }
}

/// The transfer function: the machine after the instruction, and the
/// instruction's effect on control flow and memory.
pub open spec fn spec_step(
    m: VmModel,
    obj: ObjInfo,
    ins_addr: SectionAddress,
    ins: Ins,
) -> (VmModel, StepModel) {
    let op = ins.op;
    if op == Opcode::Illegal {
        (m, StepModel::Illegal)
    } else if op == Opcode::Add {
        spec_step_add(m, ins.code)
    } else if op == Opcode::Addis {
        spec_step_addis(m, obj, ins_addr, ins.code)
    } else if op == Opcode::Addi || op == Opcode::Addic || op == Opcode::Addic_ {
        spec_step_addi(m, obj, ins_addr, ins)
    } else if op == Opcode::Ori {
        spec_step_ori(m, obj, ins_addr, ins.code)
    } else if op == Opcode::Or {
        spec_step_or(m, ins.code)
    } else if op == Opcode::Cmp || op == Opcode::Cmpi || op == Opcode::Cmpl || op
        == Opcode::Cmpli {
        spec_step_cmp(m, ins)
    } else if op == Opcode::Rlwinm || op == Opcode::Rlwnm {
        spec_step_rlw(m, ins)
    } else if op == Opcode::B || op == Opcode::Bc || op == Opcode::Bcctr || op == Opcode::Bclr {
        spec_step_branch(m, obj, ins_addr, ins)
    } else if op == Opcode::Lwzx {
        spec_step_lwzx(m, obj, ins_addr, ins.code)
    } else if op == Opcode::Mtspr {
        spec_step_mtspr(m, ins.code)
    } else if op == Opcode::Mfspr {
        spec_step_mfspr(m, ins.code)
    } else if op == Opcode::Rfi {
        (m, StepModel::Jump(BranchTarget::Unknown))
    } else if spec_is_load_store_op(op) {
        spec_step_load_store(m, obj, ins_addr, ins)
    } else {
        (default_model(m, ins.code), StepModel::Continue)
    }
}

impl VM {
    fn do_add(&mut self, ins: &Ins) -> (r: StepResult)
        requires
            ins.op == Opcode::Add,
        ensures
            final(self)@ == spec_step_add(old(self)@, ins.code).0,
            r@ == spec_step_add(old(self)@, ins.code).1,
    {
        let left = self.gpr[ins.field_ra()].value;
        let right = self.gpr[ins.field_rb()].value;
        let value = match (left, right) {
            (GprValue::Constant(l), GprValue::Constant(r)) => GprValue::Constant(
                l.wrapping_add(r),
            ),
            (
                GprValue::Address(RelocationTarget::Address(l)),
                GprValue::Constant(r),
            ) => GprValue::Address(RelocationTarget::Address(l.with_offset(r))),
            (
                GprValue::Constant(l),
                GprValue::Address(RelocationTarget::Address(r)),
            ) => GprValue::Address(RelocationTarget::Address(r.with_offset(l))),
            _ => GprValue::Unknown,
        };
        let d = ins.field_rd();
        let mut g = self.gpr[d];
        g.set_direct(value);
        self.gpr[d] = g;
        StepResult::Continue
    }

    fn do_addis(&mut self, obj: &ObjInfo, ins_addr: SectionAddress, ins: &Ins) -> (r: StepResult)
        requires
            ins.op == Opcode::Addis,
        ensures
            final(self)@ == spec_step_addis(old(self)@, *obj, ins_addr, ins.code).0,
            r@ == spec_step_addis(old(self)@, *obj, ins_addr, ins.code).1,
    {
        let d = ins.field_rd();
        if let Some(target) = relocation_target_for(obj, ins_addr) {
            let mut g = self.gpr[d];
            g.set_hi(GprValue::Address(target), ins_addr);
            self.gpr[d] = g;
        } else {
            let ra = ins.field_ra();
            let left = if ra == 0 {
                GprValue::Constant(0)
            } else {
                self.gpr[ra].value
            };
            let value = match left {
                GprValue::Constant(v) => GprValue::Constant(
                    v.wrapping_add((ins.field_simm() as u32) << 16u32),
                ),
                _ => GprValue::Unknown,
            };
            let mut g = self.gpr[d];
            if ra == 0 {
                // lis rD, SIMM
                g.set_hi(value, ins_addr);
            } else {
                g.set_direct(value);
            }
            self.gpr[d] = g;
        }
        StepResult::Continue
    }

    fn do_addi(&mut self, obj: &ObjInfo, ins_addr: SectionAddress, ins: &Ins) -> (r: StepResult)
        requires
            ins.op == Opcode::Addi || ins.op == Opcode::Addic || ins.op == Opcode::Addic_,
        ensures
            final(self)@ == spec_step_addi(old(self)@, *obj, ins_addr, *ins).0,
            r@ == spec_step_addi(old(self)@, *obj, ins_addr, *ins).1,
    {
        let d = ins.field_rd();
        let ra = ins.field_ra();
        if let Some(target) = relocation_target_for(obj, ins_addr) {
            let src = self.gpr[ra];
            let mut g = self.gpr[d];
            g.set_lo(GprValue::Address(target), ins_addr, src);
            self.gpr[d] = g;
        } else {
            let left = if ra == 0 && matches!(ins.op, Opcode::Addi) {
                GprValue::Constant(0)
            } else {
                self.gpr[ra].value
            };
            let value = match left {
                GprValue::Constant(v) => GprValue::Constant(
                    v.wrapping_add(ins.field_simm() as u32),
                ),
                GprValue::Address(RelocationTarget::Address(address)) => GprValue::Address(
                    RelocationTarget::Address(address.offset(ins.field_simm() as i32)),
                ),
                _ => GprValue::Unknown,
            };
            if ra == 0 {
                // li rD, SIMM
                let mut g = self.gpr[d];
                g.set_direct(value);
                self.gpr[d] = g;
            } else {
                let src = self.gpr[ra];
                let mut g = self.gpr[d];
                g.set_lo(value, ins_addr, src);
                self.gpr[d] = g;
            }
        }
        StepResult::Continue
    }

    fn do_ori(&mut self, obj: &ObjInfo, ins_addr: SectionAddress, ins: &Ins) -> (r: StepResult)
        requires
            ins.op == Opcode::Ori,
        ensures
            final(self)@ == spec_step_ori(old(self)@, *obj, ins_addr, ins.code).0,
            r@ == spec_step_ori(old(self)@, *obj, ins_addr, ins.code).1,
    {
        let a = ins.field_ra();
        let s = ins.field_rs();
        if let Some(target) = relocation_target_for(obj, ins_addr) {
            let src = self.gpr[s];
            let mut g = self.gpr[a];
            g.set_lo(GprValue::Address(target), ins_addr, src);
            self.gpr[a] = g;
        } else {
            let value = match self.gpr[s].value {
                GprValue::Constant(v) => GprValue::Constant(v | ins.field_uimm() as u32),
                _ => GprValue::Unknown,
            };
            let src = self.gpr[s];
            let mut g = self.gpr[a];
            g.set_lo(value, ins_addr, src);
            self.gpr[a] = g;
        }
        StepResult::Continue
    }

    fn do_or(&mut self, ins: &Ins) -> (r: StepResult)
        requires
            ins.op == Opcode::Or,
        ensures
            final(self)@ == spec_step_or(old(self)@, ins.code).0,
            r@ == spec_step_or(old(self)@, ins.code).1,
    {
        let a = ins.field_ra();
        let s = ins.field_rs();
        let b = ins.field_rb();
        if s == b {
            // register copy
            self.gpr[a] = self.gpr[s];
        } else {
            let value = match (self.gpr[s].value, self.gpr[b].value) {
                (GprValue::Constant(l), GprValue::Constant(r)) => GprValue::Constant(l | r),
                _ => GprValue::Unknown,
            };
            let mut g = self.gpr[a];
            g.set_direct(value);
            self.gpr[a] = g;
        }
        StepResult::Continue
    }

    fn do_cmp(&mut self, ins: &Ins) -> (r: StepResult)
        requires
            ins.op == Opcode::Cmp || ins.op == Opcode::Cmpi || ins.op == Opcode::Cmpl || ins.op
                == Opcode::Cmpli,
        ensures
            final(self)@ == spec_step_cmp(old(self)@, *ins).0,
            r@ == spec_step_cmp(old(self)@, *ins).1,
    {
        if ins.field_l_bit() == 0 {
            let left_reg = ins.field_ra();
            let left = self.gpr[left_reg].value;
            let right = if matches!(ins.op, Opcode::Cmp | Opcode::Cmpl) {
                self.gpr[ins.field_rb()].value
            } else if matches!(ins.op, Opcode::Cmpi) {
                GprValue::Constant(ins.field_simm() as u32)
            } else {
                GprValue::Constant(ins.field_uimm() as u32)
            };
            let signed = matches!(ins.op, Opcode::Cmp | Opcode::Cmpi);
            let crf = ins.field_crfd();
            self.cr[crf] = Cr { left, right, signed };
            let mut g = self.gpr[left_reg];
            g.value = GprValue::ComparisonResult(crf as u8);
            self.gpr[left_reg] = g;
        }
        StepResult::Continue
    }

    fn do_rlw(&mut self, ins: &Ins) -> (r: StepResult)
        requires
            ins.op == Opcode::Rlwinm || ins.op == Opcode::Rlwnm,
        ensures
            final(self)@ == spec_step_rlw(old(self)@, *ins).0,
            r@ == spec_step_rlw(old(self)@, *ins).1,
    {
        let shift_opt: Option<u32> = if matches!(ins.op, Opcode::Rlwinm) {
            Some(ins.field_sh())
        } else {
            match self.gpr[ins.field_rb()].value {
                GprValue::Constant(v) => Some(v),
                _ => None,
            }
        };
        let value = match shift_opt {
            Some(shift) => {
                let mask = mask_value(ins.field_mb(), ins.field_me());
                match self.gpr[ins.field_rs()].value {
                    GprValue::Constant(v) => GprValue::Constant(rotl32(v, shift) & mask),
                    GprValue::Range { min, max, step } => GprValue::Range {
                        min: rotl32(min, shift) & mask,
                        max: rotl32(max, shift) & mask,
                        step: rotl32(step, shift),
                    },
                    _ => GprValue::Range { min: 0, max: mask, step: rotl32(1, shift) },
                }
            },
            None => GprValue::Unknown,
        };
        let a = ins.field_ra();
        let mut g = self.gpr[a];
        g.set_direct(value);
        self.gpr[a] = g;
        StepResult::Continue
    }

    fn do_branch(&mut self, obj: &ObjInfo, ins_addr: SectionAddress, ins: &Ins) -> (r: StepResult)
        requires
            ins.op == Opcode::B || ins.op == Opcode::Bc || ins.op == Opcode::Bcctr || ins.op
                == Opcode::Bclr,
        ensures
            final(self)@ == spec_step_branch(old(self)@, *obj, ins_addr, *ins).0,
            r@ == spec_step_branch(old(self)@, *obj, ins_addr, *ins).1,
    {
        // hand-written glue of the shape `bla 0` has no resolvable target
        if matches!(ins.op, Opcode::B) && ins.field_lk() && ins.field_aa() {
            return StepResult::Jump(BranchTarget::Unknown);
        }
        let branch_target = if matches!(ins.op, Opcode::Bcctr) {
            match self.ctr {
                GprValue::Constant(value) => {
                    match section_address_for(obj, ins_addr, value) {
                        Some(target) => BranchTarget::Address(target),
                        None => BranchTarget::Unknown,
                    }
                },
                GprValue::Address(target) => BranchTarget::Address(target),
                GprValue::LoadIndexed { address, max_offset } => {
                    if !ins.field_lk() {
                        // the link-bit guard keeps an indirect call (bctrl)
                        // from being taken for a jump table
                        BranchTarget::JumpTable {
                            address,
                            size: match max_offset {
                                Some(n) => n.checked_add(4),
                                None => None,
                            },
                        }
                    } else {
                        BranchTarget::Unknown
                    }
                },
                _ => BranchTarget::Unknown,
            }
        } else if matches!(ins.op, Opcode::Bclr) {
            BranchTarget::Return
        } else {
            match ins.branch_dest(ins_addr.address) {
                Some(value) => match section_address_for(obj, ins_addr, value) {
                    Some(target) => BranchTarget::Address(target),
                    None => BranchTarget::Unknown,
                },
                None => BranchTarget::Unknown,
            }
        };

        // If branching with link, use function call semantics
        if ins.field_lk() {
            let result = StepResult::Branch(
                vec![
                    Branch {
                        target: BranchTarget::Address(
                            RelocationTarget::Address(ins_addr.with_offset(4)),
                        ),
                        link: false,
                        vm: self.clone_for_return(),
                    },
                    Branch { target: branch_target, link: true, vm: self.clone_for_link() },
                ],
            );
            proof {
                assert(result@ =~~= spec_step_branch(old(self)@, *obj, ins_addr, *ins).1);
            }
            return result;
        }

        // Branch always
        if matches!(ins.op, Opcode::B) || ins.field_bo() & 0b10100 == 0b10100 {
            return StepResult::Jump(branch_target);
        }

        // Branch conditionally: use the tracked CR to refine register
        // values along the two edges
        let crf = (ins.field_bi() / 4) as usize;
        let crb = (ins.field_bi() % 4) as u8;
        let pair = split_values_by_crb(crb, self.cr[crf].left, self.cr[crf].right);
        let mut vm_f = self.clone_all();
        let mut vm_t = self.clone_all();
        let bo = ins.field_bo();
        if bo & 0b11110 == 0b00100 {
            // Branch if false
            vm_f.set_comparison_result(pair.1, crf);
            vm_t.set_comparison_result(pair.0, crf);
        } else if bo & 0b11110 == 0b01100 {
            // Branch if true
            vm_f.set_comparison_result(pair.0, crf);
            vm_t.set_comparison_result(pair.1, crf);
        }
        let result = StepResult::Branch(
            vec![
                // Branch not taken
                Branch {
                    target: BranchTarget::Address(
                        RelocationTarget::Address(ins_addr.with_offset(4)),
                    ),
                    link: false,
                    vm: vm_f,
                },
                // Branch taken
                Branch { target: branch_target, link: ins.field_lk(), vm: vm_t },
            ],
        );
        proof {
            assert(result@ =~~= spec_step_branch(old(self)@, *obj, ins_addr, *ins).1);
        }
        result
    }

    fn do_lwzx(&mut self, obj: &ObjInfo, ins_addr: SectionAddress, ins: &Ins) -> (r: StepResult)
        requires
            ins.op == Opcode::Lwzx,
        ensures
            final(self)@ == spec_step_lwzx(old(self)@, *obj, ins_addr, ins.code).0,
            r@ == spec_step_lwzx(old(self)@, *obj, ins_addr, ins.code).1,
    {
        let left = self.gpr[ins.field_ra()].address(obj, ins_addr);
        let right = self.gpr[ins.field_rb()].value;
        let value = match (left, right) {
            (Some(address), GprValue::Range { min: _, max, step: _ }) => {
                if max < u32::MAX - 4 && max & 3 == 0 {
                    GprValue::LoadIndexed {
                        address,
                        max_offset: if max == 0 {
                            None
                        } else {
                            Some(max)
                        },
                    }
                } else {
                    GprValue::LoadIndexed { address, max_offset: None }
                }
            },
            (Some(address), _) => GprValue::LoadIndexed { address, max_offset: None },
            _ => GprValue::Unknown,
        };
        let d = ins.field_rd();
        let mut g = self.gpr[d];
        g.set_direct(value);
        self.gpr[d] = g;
        StepResult::Continue
    }

    fn do_mtspr(&mut self, ins: &Ins) -> (r: StepResult)
        requires
            ins.op == Opcode::Mtspr,
        ensures
            final(self)@ == spec_step_mtspr(old(self)@, ins.code).0,
            r@ == spec_step_mtspr(old(self)@, ins.code).1,
    {
        if ins.field_spr() == 9 {
            // CTR
            self.ctr = self.gpr[ins.field_rs()].value;
        }
        StepResult::Continue
    }

    fn do_mfspr(&mut self, ins: &Ins) -> (r: StepResult)
        requires
            ins.op == Opcode::Mfspr,
        ensures
            final(self)@ == spec_step_mfspr(old(self)@, ins.code).0,
            r@ == spec_step_mfspr(old(self)@, ins.code).1,
    {
        let value = if ins.field_spr() == 9 {
            // CTR
            self.ctr
        } else {
            GprValue::Unknown
        };
        let d = ins.field_rd();
        let mut g = self.gpr[d];
        g.set_direct(value);
        self.gpr[d] = g;
        StepResult::Continue
    }

    fn do_load_store(&mut self, obj: &ObjInfo, ins_addr: SectionAddress, ins: &Ins) -> (r:
        StepResult)
        requires
            spec_is_load_store_op(ins.op),
        ensures
            final(self)@ == spec_step_load_store(old(self)@, *obj, ins_addr, *ins).0,
            r@ == spec_step_load_store(old(self)@, *obj, ins_addr, *ins).1,
    {
        let source = ins.field_ra();
        let g = self.gpr[source];
        let mut result = StepResult::Continue;
        if let GprValue::Address(target) = g.value {
            if is_update_op(ins.op) {
                let mut gg = self.gpr[source];
                gg.set_lo(GprValue::Address(target), ins_addr, g);
                self.gpr[source] = gg;
            }
            result = StepResult::LoadStore {
                address: target,
                source: self.gpr[source],
                source_reg: source as u8,
            };
        } else if let GprValue::Constant(base) = g.value {
            let address = base.wrapping_add(ins.field_simm() as u32);
            if let Some(target) = section_address_for(obj, ins_addr, address) {
                if is_update_op(ins.op) {
                    let mut gg = self.gpr[source];
                    gg.set_lo(GprValue::Address(target), ins_addr, g);
                    self.gpr[source] = gg;
                }
                result = StepResult::LoadStore {
                    address: target,
                    source: self.gpr[source],
                    source_reg: source as u8,
                };
            }
        } else if is_update_op(ins.op) {
            let mut gg = self.gpr[source];
            gg.set_direct(GprValue::Unknown);
            self.gpr[source] = gg;
        }
        if is_load_op(ins.op) {
            let d = ins.field_rd();
            let mut gg = self.gpr[d];
            gg.set_direct(GprValue::Unknown);
            self.gpr[d] = gg;
        }
        result
    }

    fn do_default(&mut self, ins: &Ins) -> (r: StepResult)
        ensures
            final(self)@ == default_model(old(self)@, ins.code),
            r@ == StepModel::Continue,
    {
        let defs = decode_defs(ins.code);
        let n = defs.len();
        let mut k: usize = 0;
        while k < n
            invariant
                k <= n,
                n == defs@.len(),
                defs@ == gpr_defs_of(ins.code),
                forall|j: int| 0 <= j < n ==> defs@[j] < 32,
                self.gpr@ == clobber_defs(old(self).gpr@, defs@, k as int),
                self.cr@ == old(self).cr@,
                self.ctr == old(self).ctr,
            decreases n - k,
        {
            let reg = defs[k];
            self.gpr[reg as usize] = Gpr::unknown();
            k = k + 1;
        }
        proof {
            assert(self@ =~= default_model(old(self)@, ins.code));
        }
        StepResult::Continue
    }

    /// Execute one decoded instruction at `ins_addr`, mutating the machine
    /// and reporting the instruction's effect.  The whole transfer function
    /// is pinned by [`spec_step`].
    pub fn step(&mut self, obj: &ObjInfo, ins_addr: SectionAddress, ins: &Ins) -> (r: StepResult)
        ensures
            final(self)@ == spec_step(old(self)@, *obj, ins_addr, *ins).0,
            r@ == spec_step(old(self)@, *obj, ins_addr, *ins).1,
    {
        let op = ins.op;
        if matches!(op, Opcode::Illegal) {
            StepResult::Illegal
        } else if matches!(op, Opcode::Add) {
            self.do_add(ins)
        } else if matches!(op, Opcode::Addis) {
            self.do_addis(obj, ins_addr, ins)
        } else if matches!(op, Opcode::Addi | Opcode::Addic | Opcode::Addic_) {
            self.do_addi(obj, ins_addr, ins)
        } else if matches!(op, Opcode::Ori) {
            self.do_ori(obj, ins_addr, ins)
        } else if matches!(op, Opcode::Or) {
            self.do_or(ins)
        } else if matches!(op, Opcode::Cmp | Opcode::Cmpi | Opcode::Cmpl | Opcode::Cmpli) {
            self.do_cmp(ins)
        } else if matches!(op, Opcode::Rlwinm | Opcode::Rlwnm) {
            self.do_rlw(ins)
        } else if matches!(op, Opcode::B | Opcode::Bc | Opcode::Bcctr | Opcode::Bclr) {
            self.do_branch(obj, ins_addr, ins)
        } else if matches!(op, Opcode::Lwzx) {
            self.do_lwzx(obj, ins_addr, ins)
        } else if matches!(op, Opcode::Mtspr) {
            self.do_mtspr(ins)
        } else if matches!(op, Opcode::Mfspr) {
            self.do_mfspr(ins)
        } else if matches!(op, Opcode::Rfi) {
            StepResult::Jump(BranchTarget::Unknown)
        } else if is_load_store_op(op) {
            self.do_load_store(obj, ins_addr, ins)
        } else {
            self.do_default(ins)
        }
    }
}

} // verus!
