//! Decoded instructions: the opcode identities and operand fields the
//! machine reads.  Opcode detection and register-definition metadata come
//! from the `ppc750cl` decoder behind trusted wrappers; the operand fields
//! are plain bit extractions, stated and verified here.

use vstd::prelude::*;

verus! {

/// The opcode identities the machine distinguishes.  Every other opcode is
/// `Other` and falls through to the default write-back rule.
#[derive(Debug, Copy, Clone, Eq, PartialEq, Structural)]
pub enum Opcode {
    Illegal,
    Add,
    Addi,
    Addic,
    Addic_,
    Addis,
    B,
    Bc,
    Bcctr,
    Bclr,
    Cmp,
    Cmpi,
    Cmpl,
    Cmpli,
    Lbz,
    Lbzu,
    Lbzux,
    Lfd,
    Lfdu,
    Lfdux,
    Lfs,
    Lfsu,
    Lfsux,
    Lha,
    Lhau,
    Lhaux,
    Lhz,
    Lhzu,
    Lhzux,
    Lmw,
    Lwz,
    Lwzu,
    Lwzux,
    Lwzx,
    Mfspr,
    Mtspr,
    Or,
    Ori,
    Rfi,
    Rlwinm,
    Rlwnm,
    Stb,
    Stbu,
    Stbux,
    Stfd,
    Stfdu,
    Stfdux,
    Stfs,
    Stfsu,
    Stfsux,
    Sth,
    Sthu,
    Sthux,
    Stmw,
    Stw,
    Stwu,
    Stwux,
    Other,
}

/// The opcode the decoder gives the raw word, as the machine models it:
/// one of the named variants, or `Other` for anything outside the model.
/// It stands for the opcode field of `ppc750cl::Ins::new(code)`, a pure
/// function of the word.
pub uninterp spec fn op_of(code: u32) -> Opcode;

/// The arithmetic, logical and rotate opcodes (and the illegal marker).
pub open spec fn in_calc_class(op: Opcode) -> bool {
    op == Opcode::Illegal || op == Opcode::Add || op == Opcode::Addi || op == Opcode::Addic || op
        == Opcode::Addic_ || op == Opcode::Addis || op == Opcode::Or || op == Opcode::Ori || op
        == Opcode::Rlwinm || op == Opcode::Rlwnm
}

/// The branch, compare and interrupt-return opcodes.
pub open spec fn in_branch_class(op: Opcode) -> bool {
    op == Opcode::B || op == Opcode::Bc || op == Opcode::Bcctr || op == Opcode::Bclr || op
        == Opcode::Rfi || op == Opcode::Cmp || op == Opcode::Cmpi || op == Opcode::Cmpl || op
        == Opcode::Cmpli
}

/// The special-purpose-register moves and word loads.
pub open spec fn in_spr_word_class(op: Opcode) -> bool {
    op == Opcode::Mfspr || op == Opcode::Mtspr || op == Opcode::Lwz || op == Opcode::Lwzu || op
        == Opcode::Lwzux || op == Opcode::Lwzx
}

/// The byte, half-word and multiple-word loads.
pub open spec fn in_load_class(op: Opcode) -> bool {
    op == Opcode::Lbz || op == Opcode::Lbzu || op == Opcode::Lbzux || op == Opcode::Lha || op
        == Opcode::Lhau || op == Opcode::Lhaux || op == Opcode::Lhz || op == Opcode::Lhzu || op
        == Opcode::Lhzux || op == Opcode::Lmw
}

/// The floating-point loads.
pub open spec fn in_load_float_class(op: Opcode) -> bool {
    op == Opcode::Lfd || op == Opcode::Lfdu || op == Opcode::Lfdux || op == Opcode::Lfs || op
        == Opcode::Lfsu || op == Opcode::Lfsux
}

/// The integer stores.
pub open spec fn in_store_class(op: Opcode) -> bool {
    op == Opcode::Stb || op == Opcode::Stbu || op == Opcode::Stbux || op == Opcode::Sth || op
        == Opcode::Sthu || op == Opcode::Sthux || op == Opcode::Stmw || op == Opcode::Stw || op
        == Opcode::Stwu || op == Opcode::Stwux
}

/// The floating-point stores.
pub open spec fn in_store_float_class(op: Opcode) -> bool {
    op == Opcode::Stfd || op == Opcode::Stfdu || op == Opcode::Stfdux || op == Opcode::Stfs || op
        == Opcode::Stfsu || op == Opcode::Stfsux
}

/// Relies on ppc750cl::Ins::new: names the decoded arithmetic, logical and
/// rotate opcodes (and the illegal marker) of the word.
#[verifier::external_body]
fn classify_calc(code: u32) -> (r: Option<Opcode>)
    ensures
        r matches Some(op) ==> op == op_of(code) && in_calc_class(op),
        r is None ==> !in_calc_class(op_of(code)),
{
    match ppc750cl::Ins::new(code).op {
        ppc750cl::Opcode::Illegal => Some(Opcode::Illegal),
        ppc750cl::Opcode::Add => Some(Opcode::Add),
        ppc750cl::Opcode::Addi => Some(Opcode::Addi),
        ppc750cl::Opcode::Addic => Some(Opcode::Addic),
        ppc750cl::Opcode::Addic_ => Some(Opcode::Addic_),
        ppc750cl::Opcode::Addis => Some(Opcode::Addis),
        ppc750cl::Opcode::Or => Some(Opcode::Or),
        ppc750cl::Opcode::Ori => Some(Opcode::Ori),
        ppc750cl::Opcode::Rlwinm => Some(Opcode::Rlwinm),
        ppc750cl::Opcode::Rlwnm => Some(Opcode::Rlwnm),
        _ => None,
    }
}

/// Relies on ppc750cl::Ins::new: names the decoded branch, compare and
/// interrupt-return opcodes of the word.
#[verifier::external_body]
fn classify_branch(code: u32) -> (r: Option<Opcode>)
    ensures
        r matches Some(op) ==> op == op_of(code) && in_branch_class(op),
        r is None ==> !in_branch_class(op_of(code)),
{
    match ppc750cl::Ins::new(code).op {
        ppc750cl::Opcode::B => Some(Opcode::B),
        ppc750cl::Opcode::Bc => Some(Opcode::Bc),
        ppc750cl::Opcode::Bcctr => Some(Opcode::Bcctr),
        ppc750cl::Opcode::Bclr => Some(Opcode::Bclr),
        ppc750cl::Opcode::Rfi => Some(Opcode::Rfi),
        ppc750cl::Opcode::Cmp => Some(Opcode::Cmp),
        ppc750cl::Opcode::Cmpi => Some(Opcode::Cmpi),
        ppc750cl::Opcode::Cmpl => Some(Opcode::Cmpl),
        ppc750cl::Opcode::Cmpli => Some(Opcode::Cmpli),
        _ => None,
    }
}

/// Relies on ppc750cl::Ins::new: names the decoded special-purpose-register
/// moves and word-load opcodes of the word.
#[verifier::external_body]
fn classify_spr_word(code: u32) -> (r: Option<Opcode>)
    ensures
        r matches Some(op) ==> op == op_of(code) && in_spr_word_class(op),
        r is None ==> !in_spr_word_class(op_of(code)),
{
    match ppc750cl::Ins::new(code).op {
        ppc750cl::Opcode::Mfspr => Some(Opcode::Mfspr),
        ppc750cl::Opcode::Mtspr => Some(Opcode::Mtspr),
        ppc750cl::Opcode::Lwz => Some(Opcode::Lwz),
        ppc750cl::Opcode::Lwzu => Some(Opcode::Lwzu),
        ppc750cl::Opcode::Lwzux => Some(Opcode::Lwzux),
        ppc750cl::Opcode::Lwzx => Some(Opcode::Lwzx),
        _ => None,
    }
}

/// Relies on ppc750cl::Ins::new: names the decoded byte, half-word and
/// multiple-word load opcodes of the word.
#[verifier::external_body]
fn classify_load(code: u32) -> (r: Option<Opcode>)
    ensures
        r matches Some(op) ==> op == op_of(code) && in_load_class(op),
        r is None ==> !in_load_class(op_of(code)),
{
    match ppc750cl::Ins::new(code).op {
        ppc750cl::Opcode::Lbz => Some(Opcode::Lbz),
        ppc750cl::Opcode::Lbzu => Some(Opcode::Lbzu),
        ppc750cl::Opcode::Lbzux => Some(Opcode::Lbzux),
        ppc750cl::Opcode::Lha => Some(Opcode::Lha),
        ppc750cl::Opcode::Lhau => Some(Opcode::Lhau),
        ppc750cl::Opcode::Lhaux => Some(Opcode::Lhaux),
        ppc750cl::Opcode::Lhz => Some(Opcode::Lhz),
        ppc750cl::Opcode::Lhzu => Some(Opcode::Lhzu),
        ppc750cl::Opcode::Lhzux => Some(Opcode::Lhzux),
        ppc750cl::Opcode::Lmw => Some(Opcode::Lmw),
        _ => None,
    }
}

/// Relies on ppc750cl::Ins::new: names the decoded floating-point load
/// opcodes of the word.
#[verifier::external_body]
fn classify_load_float(code: u32) -> (r: Option<Opcode>)
    ensures
        r matches Some(op) ==> op == op_of(code) && in_load_float_class(op),
        r is None ==> !in_load_float_class(op_of(code)),
{
    match ppc750cl::Ins::new(code).op {
        ppc750cl::Opcode::Lfd => Some(Opcode::Lfd),
        ppc750cl::Opcode::Lfdu => Some(Opcode::Lfdu),
        ppc750cl::Opcode::Lfdux => Some(Opcode::Lfdux),
        ppc750cl::Opcode::Lfs => Some(Opcode::Lfs),
        ppc750cl::Opcode::Lfsu => Some(Opcode::Lfsu),
        ppc750cl::Opcode::Lfsux => Some(Opcode::Lfsux),
        _ => None,
    }
}

/// Relies on ppc750cl::Ins::new: names the decoded integer store opcodes of
/// the word.
#[verifier::external_body]
fn classify_store(code: u32) -> (r: Option<Opcode>)
    ensures
        r matches Some(op) ==> op == op_of(code) && in_store_class(op),
        r is None ==> !in_store_class(op_of(code)),
{
    match ppc750cl::Ins::new(code).op {
        ppc750cl::Opcode::Stb => Some(Opcode::Stb),
        ppc750cl::Opcode::Stbu => Some(Opcode::Stbu),
        ppc750cl::Opcode::Stbux => Some(Opcode::Stbux),
        ppc750cl::Opcode::Sth => Some(Opcode::Sth),
        ppc750cl::Opcode::Sthu => Some(Opcode::Sthu),
        ppc750cl::Opcode::Sthux => Some(Opcode::Sthux),
        ppc750cl::Opcode::Stmw => Some(Opcode::Stmw),
        ppc750cl::Opcode::Stw => Some(Opcode::Stw),
        ppc750cl::Opcode::Stwu => Some(Opcode::Stwu),
        ppc750cl::Opcode::Stwux => Some(Opcode::Stwux),
        _ => None,
    }
}

/// Relies on ppc750cl::Ins::new: names the decoded floating-point store
/// opcodes of the word.
#[verifier::external_body]
fn classify_store_float(code: u32) -> (r: Option<Opcode>)
    ensures
        r matches Some(op) ==> op == op_of(code) && in_store_float_class(op),
        r is None ==> !in_store_float_class(op_of(code)),
{
    match ppc750cl::Ins::new(code).op {
        ppc750cl::Opcode::Stfd => Some(Opcode::Stfd),
        ppc750cl::Opcode::Stfdu => Some(Opcode::Stfdu),
        ppc750cl::Opcode::Stfdux => Some(Opcode::Stfdux),
        ppc750cl::Opcode::Stfs => Some(Opcode::Stfs),
        ppc750cl::Opcode::Stfsu => Some(Opcode::Stfsu),
        ppc750cl::Opcode::Stfsux => Some(Opcode::Stfsux),
        _ => None,
    }
}

/// The registers (by number) that the decoded word writes, for opcodes the
/// machine does not model itself.
pub uninterp spec fn gpr_defs_of(code: u32) -> Seq<u8>;

/// Relies on ppc750cl::Ins::defs: the general-purpose registers the decoded
/// word defines; each comes from a 5-bit register field, so is below 32.
#[verifier::external_body]
pub(crate) fn decode_defs(code: u32) -> (r: Vec<u8>)
    ensures
        r@ == gpr_defs_of(code),
        forall|i: int| 0 <= i < r@.len() ==> r@[i] < 32,
{
    ppc750cl::Ins::new(code)
        .defs()
        .iter()
        .filter_map(
            |arg| match arg {
                ppc750cl::Argument::GPR(ppc750cl::GPR(reg)) => Some(*reg),
                _ => None,
            },
        )
        .collect()
}

/// Every opcode belongs to one of the decode classes, or is `Other`.
proof fn lemma_class_cover(op: Opcode)
    ensures
        in_calc_class(op) || in_branch_class(op) || in_spr_word_class(op) || in_load_class(op)
            || in_load_float_class(op) || in_store_class(op) || in_store_float_class(op) || op
            == Opcode::Other,
{
}

/// Classify a raw instruction word into the opcodes the machine models.
fn decode_op(code: u32) -> (r: Opcode)
    ensures
        r == op_of(code),
{
    if let Some(op) = classify_calc(code) {
        return op;
    }
    if let Some(op) = classify_branch(code) {
        return op;
    }
    if let Some(op) = classify_spr_word(code) {
        return op;
    }
    if let Some(op) = classify_load(code) {
        return op;
    }
    if let Some(op) = classify_load_float(code) {
        return op;
    }
    if let Some(op) = classify_store(code) {
        return op;
    }
    if let Some(op) = classify_store_float(code) {
        return op;
    }
    proof {
        lemma_class_cover(op_of(code));
    }
    Opcode::Other
}

/// A decoded instruction: the raw word and its opcode identity.
#[derive(Debug, Copy, Clone, Eq, PartialEq, Structural)]
pub struct Ins {
    pub code: u32,
    pub op: Opcode,
}

pub(crate) proof fn lemma_and_31_lt_32(x: u32)
    ensures
        x & 0x1f < 32,
{
    assert(x & 0x1f < 32) by (bit_vector);
}

pub(crate) proof fn lemma_and_7_lt_8(x: u32)
    ensures
        x & 0x7 < 8,
{
    assert(x & 0x7 < 8) by (bit_vector);
}

pub open spec fn spec_rd(code: u32) -> usize {
    ((code >> 21) & 0x1f) as usize
}

pub open spec fn spec_rs(code: u32) -> usize {
    ((code >> 21) & 0x1f) as usize
}

pub open spec fn spec_ra(code: u32) -> usize {
    ((code >> 16) & 0x1f) as usize
}

pub open spec fn spec_rb(code: u32) -> usize {
    ((code >> 11) & 0x1f) as usize
}

pub open spec fn spec_simm(code: u32) -> i16 {
    (code & 0xffff) as i16
}

pub open spec fn spec_uimm(code: u32) -> u16 {
    (code & 0xffff) as u16
}

pub open spec fn spec_sh(code: u32) -> u32 {
    (code >> 11) & 0x1f
}

pub open spec fn spec_mb(code: u32) -> u32 {
    (code >> 6) & 0x1f
}

pub open spec fn spec_me(code: u32) -> u32 {
    (code >> 1) & 0x1f
}

pub open spec fn spec_crfd(code: u32) -> usize {
    ((code >> 23) & 0x7) as usize
}

pub open spec fn spec_bo(code: u32) -> u32 {
    (code >> 21) & 0x1f
}

pub open spec fn spec_bi(code: u32) -> u32 {
    (code >> 16) & 0x1f
}

pub open spec fn spec_l_bit(code: u32) -> u32 {
    (code >> 21) & 0x1
}

pub open spec fn spec_lk(code: u32) -> bool {
    code & 0x1 == 0x1
}

pub open spec fn spec_aa(code: u32) -> bool {
    code & 0x2 == 0x2
}

pub open spec fn spec_spr(code: u32) -> u32 {
    let value = (code >> 11) & 0x3ff;
    ((value & 0x3e0) >> 5) | ((value & 0x1f) << 5)
}

/// The sign-extended 24-bit branch displacement of an `b`-form word (low
/// two bits cleared).
pub open spec fn spec_li(code: u32) -> i32 {
    ((code & 0x3fffffc) | (if code & 0x2000000 == 0x2000000 {
        0xfc000000u32
    } else {
        0u32
    })) as i32
}

/// The sign-extended 14-bit branch displacement of a `bc`-form word (low
/// two bits cleared).
pub open spec fn spec_bd(code: u32) -> i16 {
    (code & 0xfffc) as i16
}

impl Ins {
    /// Decode a raw instruction word.
    pub fn new(code: u32) -> (r: Ins)
        ensures
            r.code == code,
            r.op == op_of(code),
    {
        Ins { code, op: decode_op(code) }
    }

    /// rD: destination register.
    pub fn field_rd(&self) -> (r: usize)
        ensures
            r == spec_rd(self.code),
            r < 32,
    {
        proof {
            lemma_and_31_lt_32(self.code >> 21);
        }
        ((self.code >> 21) & 0x1f) as usize
    }

    /// rS: source register.
    pub fn field_rs(&self) -> (r: usize)
        ensures
            r == spec_rs(self.code),
            r < 32,
    {
        proof {
            lemma_and_31_lt_32(self.code >> 21);
        }
        ((self.code >> 21) & 0x1f) as usize
    }

    /// rA: register A.
    pub fn field_ra(&self) -> (r: usize)
        ensures
            r == spec_ra(self.code),
            r < 32,
    {
        proof {
            lemma_and_31_lt_32(self.code >> 16);
        }
        ((self.code >> 16) & 0x1f) as usize
    }

    /// rB: register B.
    pub fn field_rb(&self) -> (r: usize)
        ensures
            r == spec_rb(self.code),
            r < 32,
    {
        proof {
            lemma_and_31_lt_32(self.code >> 11);
        }
        ((self.code >> 11) & 0x1f) as usize
    }

    /// simm: signed immediate.
    pub fn field_simm(&self) -> (r: i16)
        ensures
            r == spec_simm(self.code),
    {
        (self.code & 0xffff) as i16
    }

    /// uimm: unsigned immediate.
    pub fn field_uimm(&self) -> (r: u16)
        ensures
            r == spec_uimm(self.code),
    {
        (self.code & 0xffff) as u16
    }

    /// SH: shift amount.
    pub fn field_sh(&self) -> (r: u32)
        ensures
            r == spec_sh(self.code),
    {
        (self.code >> 11) & 0x1f
    }

    /// MB: mask begin.
    pub fn field_mb(&self) -> (r: u32)
        ensures
            r == spec_mb(self.code),
            r < 32,
    {
        proof {
            lemma_and_31_lt_32(self.code >> 6);
        }
        (self.code >> 6) & 0x1f
    }

    /// ME: mask end.
    pub fn field_me(&self) -> (r: u32)
        ensures
            r == spec_me(self.code),
            r < 32,
    {
        proof {
            lemma_and_31_lt_32(self.code >> 1);
        }
        (self.code >> 1) & 0x1f
    }

    /// crfD: condition register field destination.
    pub fn field_crfd(&self) -> (r: usize)
        ensures
            r == spec_crfd(self.code),
            r < 8,
    {
        proof {
            lemma_and_7_lt_8(self.code >> 23);
        }
        ((self.code >> 23) & 0x7) as usize
    }

    /// BO: branch options.
    pub fn field_bo(&self) -> (r: u32)
        ensures
            r == spec_bo(self.code),
    {
        (self.code >> 21) & 0x1f
    }

    /// BI: branch condition register bit.
    pub fn field_bi(&self) -> (r: u32)
        ensures
            r == spec_bi(self.code),
            r < 32,
    {
        proof {
            lemma_and_31_lt_32(self.code >> 16);
        }
        (self.code >> 16) & 0x1f
    }

    /// L: word/double-word bit of the compare opcodes.
    pub fn field_l_bit(&self) -> (r: u32)
        ensures
            r == spec_l_bit(self.code),
    {
        (self.code >> 21) & 0x1
    }

    /// LK: link bit.
    pub fn field_lk(&self) -> (r: bool)
        ensures
            r == spec_lk(self.code),
    {
        self.code & 0x1 == 0x1
    }

    /// AA: absolute address bit.
    pub fn field_aa(&self) -> (r: bool)
        ensures
            r == spec_aa(self.code),
    {
        self.code & 0x2 == 0x2
    }

    /// spr: special-purpose register number (the two halves swapped).
    pub fn field_spr(&self) -> (r: u32)
        ensures
            r == spec_spr(self.code),
    {
        let value = (self.code >> 11) & 0x3ff;
        ((value & 0x3e0) >> 5) | ((value & 0x1f) << 5)
    }

    /// The absolute branch destination, if the instruction is a direct
    /// branch and the displacement resolves without overflow.
    pub open spec fn spec_branch_dest(self, addr: u32) -> Option<u32> {
        if self.op == Opcode::B {
            if spec_aa(self.code) {
                Some(spec_li(self.code) as u32)
            } else {
                addr.checked_add_signed(spec_li(self.code))
            }
        } else if self.op == Opcode::Bc {
            if spec_aa(self.code) {
                Some(spec_bd(self.code) as i32 as u32)
            } else {
                addr.checked_add_signed(spec_bd(self.code) as i32)
            }
        } else {
            None
        }
    }

    /// Compute the absolute branch destination of a direct branch.
    pub fn branch_dest(&self, addr: u32) -> (r: Option<u32>)
        ensures
            r == self.spec_branch_dest(addr),
    {
        let offset: i32 = if matches!(self.op, Opcode::B) {
            let code = self.code;
            (code & 0x3fffffc | (if code & 0x2000000 == 0x2000000 {
                0xfc000000u32
            } else {
                0u32
            })) as i32
        } else if matches!(self.op, Opcode::Bc) {
            ((self.code & 0xfffc) as i16) as i32
        } else {
            return None;
        };
        if self.code & 0x2 == 0x2 {
            Some(offset as u32)
        } else {
            addr.checked_add_signed(offset)
        }
    }
}

pub open spec fn spec_is_load_op(op: Opcode) -> bool {
    op == Opcode::Lbz || op == Opcode::Lbzu || op == Opcode::Lha || op == Opcode::Lhau || op
        == Opcode::Lhz || op == Opcode::Lhzu || op == Opcode::Lmw || op == Opcode::Lwz || op
        == Opcode::Lwzu
}

/// Whether the opcode is an integer load with an immediate offset.
pub fn is_load_op(op: Opcode) -> (r: bool)
    ensures
        r == spec_is_load_op(op),
{
    matches!(
        op,
        Opcode::Lbz
            | Opcode::Lbzu
            | Opcode::Lha
            | Opcode::Lhau
            | Opcode::Lhz
            | Opcode::Lhzu
            | Opcode::Lmw
            | Opcode::Lwz
            | Opcode::Lwzu
    )
}

pub open spec fn spec_is_loadf_op(op: Opcode) -> bool {
    op == Opcode::Lfd || op == Opcode::Lfdu || op == Opcode::Lfs || op == Opcode::Lfsu
}

/// Whether the opcode is a floating-point load with an immediate offset.
pub fn is_loadf_op(op: Opcode) -> (r: bool)
    ensures
        r == spec_is_loadf_op(op),
{
    matches!(op, Opcode::Lfd | Opcode::Lfdu | Opcode::Lfs | Opcode::Lfsu)
}

pub open spec fn spec_is_store_op(op: Opcode) -> bool {
    op == Opcode::Stb || op == Opcode::Stbu || op == Opcode::Sth || op == Opcode::Sthu || op
        == Opcode::Stmw || op == Opcode::Stw || op == Opcode::Stwu
}

/// Whether the opcode is an integer store with an immediate offset.
pub fn is_store_op(op: Opcode) -> (r: bool)
    ensures
        r == spec_is_store_op(op),
{
    matches!(
        op,
        Opcode::Stb
            | Opcode::Stbu
            | Opcode::Sth
            | Opcode::Sthu
            | Opcode::Stmw
            | Opcode::Stw
            | Opcode::Stwu
    )
}

pub open spec fn spec_is_storef_op(op: Opcode) -> bool {
    op == Opcode::Stfd || op == Opcode::Stfdu || op == Opcode::Stfs || op == Opcode::Stfsu
}

/// Whether the opcode is a floating-point store with an immediate offset.
pub fn is_storef_op(op: Opcode) -> (r: bool)
    ensures
        r == spec_is_storef_op(op),
{
    matches!(op, Opcode::Stfd | Opcode::Stfdu | Opcode::Stfs | Opcode::Stfsu)
}

pub open spec fn spec_is_load_store_op(op: Opcode) -> bool {
    spec_is_load_op(op) || spec_is_loadf_op(op) || spec_is_store_op(op) || spec_is_storef_op(op)
}

/// Whether the opcode is any load or store with an immediate offset.
pub fn is_load_store_op(op: Opcode) -> (r: bool)
    ensures
        r == spec_is_load_store_op(op),
{
    is_load_op(op) || is_loadf_op(op) || is_store_op(op) || is_storef_op(op)
}

pub open spec fn spec_is_update_op(op: Opcode) -> bool {
    op == Opcode::Lbzu || op == Opcode::Lbzux || op == Opcode::Lfdu || op == Opcode::Lfdux || op
        == Opcode::Lfsu || op == Opcode::Lfsux || op == Opcode::Lhau || op == Opcode::Lhaux || op
        == Opcode::Lhzu || op == Opcode::Lhzux || op == Opcode::Lwzu || op == Opcode::Lwzux || op
        == Opcode::Stbu || op == Opcode::Stbux || op == Opcode::Stfdu || op == Opcode::Stfdux || op
        == Opcode::Stfsu || op == Opcode::Stfsux || op == Opcode::Sthu || op == Opcode::Sthux || op
        == Opcode::Stwu || op == Opcode::Stwux
}

/// Whether the opcode writes the effective address back into the base
/// register (the `u`/`ux` update forms).
pub fn is_update_op(op: Opcode) -> (r: bool)
    ensures
        r == spec_is_update_op(op),
{
    matches!(
        op,
        Opcode::Lbzu
            | Opcode::Lbzux
            | Opcode::Lfdu
            | Opcode::Lfdux
            | Opcode::Lfsu
            | Opcode::Lfsux
            | Opcode::Lhau
            | Opcode::Lhaux
            | Opcode::Lhzu
            | Opcode::Lhzux
            | Opcode::Lwzu
            | Opcode::Lwzux
            | Opcode::Stbu
            | Opcode::Stbux
            | Opcode::Stfdu
            | Opcode::Stfdux
            | Opcode::Stfsu
            | Opcode::Stfsux
            | Opcode::Sthu
            | Opcode::Sthux
            | Opcode::Stwu
            | Opcode::Stwux
    )
}

} // verus!
