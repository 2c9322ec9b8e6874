//! Laws of the transfer function: purity, audit-address soundness, and
//! monotonicity of the value lattice under lost information.

use vstd::prelude::*;

use crate::ins::{Ins, Opcode};
use crate::obj::{ObjInfo, SectionAddress};
use crate::value::{Gpr, GprValue};
use crate::vm::{StepModel, VmModel, spec_step};

verus! {

/// Purity: the step relation is a function of the starting machine, the
/// object view, the instruction address and the instruction alone.  Two
/// runs whose outcomes both satisfy `step`'s contract on the same inputs
/// (for instance on two clones of one machine) end in equal machines and
/// equal results.
pub proof fn lemma_step_pure(
    pre: VmModel,
    obj: ObjInfo,
    ins_addr: SectionAddress,
    ins: Ins,
    vm1: VmModel,
    r1: StepModel,
    vm2: VmModel,
    r2: StepModel,
)
    requires
        vm1 == spec_step(pre, obj, ins_addr, ins).0,
        r1 == spec_step(pre, obj, ins_addr, ins).1,
        vm2 == spec_step(pre, obj, ins_addr, ins).0,
        r2 == spec_step(pre, obj, ins_addr, ins).1,
    ensures
        vm1 == vm2,
        r1 == r2,
{
}

/// A register entry whose two audit addresses, when both present, denote
/// distinct instructions.
pub open spec fn gpr_audit_ok(g: Gpr) -> bool {
    g.hi_addr is Some && g.lo_addr is Some ==> g.hi_addr != g.lo_addr
}

/// A machine whose register entries all have sound audit addresses.
pub open spec fn vm_audit_ok(m: VmModel) -> bool {
    forall|i: int| 0 <= i < m.gprs.len() ==> gpr_audit_ok(#[trigger] m.gprs[i])
}

/// No register of the machine carries `ins_addr` as a hi audit address:
/// the instruction at `ins_addr` has not yet contributed a high half.
pub open spec fn vm_fresh_at(m: VmModel, ins_addr: SectionAddress) -> bool {
    forall|i: int| 0 <= i < m.gprs.len() ==> (#[trigger] m.gprs[i]).hi_addr != Some(ins_addr)
}

/// A register entry produced by the lo-path at `ins_addr` from one of the
/// machine's registers: its hi audit address is inherited from the source
/// and its lo audit address is the source's own, or `ins_addr` itself.
pub open spec fn lo_path_from(m: VmModel, g: Gpr, ins_addr: SectionAddress) -> bool {
    exists|s: int| 0 <= s < 32 && g == Gpr::spec_lo(g.value, ins_addr, #[trigger] m.gprs[s])
}

/// Every register entry of `m2` that carries both audit addresses either
/// kept the audit addresses it had in `m`, is a whole copy of one of `m`'s
/// entries, or was produced by the lo-path at `ins_addr`.
pub open spec fn audit_provenance(m: VmModel, m2: VmModel, ins_addr: SectionAddress) -> bool {
    forall|i: int|
        0 <= i < 32 && (#[trigger] m2.gprs[i]).hi_addr is Some && m2.gprs[i].lo_addr is Some
            ==> (m2.gprs[i].hi_addr == m.gprs[i].hi_addr && m2.gprs[i].lo_addr == m.gprs[i].lo_addr)
            || (exists|j: int| 0 <= j < 32 && m2.gprs[i] == #[trigger] m.gprs[j]) || lo_path_from(
            m,
            m2.gprs[i],
            ins_addr,
        )
}

proof fn lemma_lo_gpr_ok(src: Gpr, v: GprValue, ins_addr: SectionAddress)
    requires
        gpr_audit_ok(src),
        src.hi_addr != Some(ins_addr),
    ensures
        gpr_audit_ok(Gpr::spec_lo(v, ins_addr, src)),
{
}

/// Updating one register with an audit-sound entry keeps the machine
/// audit-sound.
proof fn lemma_update_audit(m: VmModel, d: int, g: Gpr)
    requires
        vm_audit_ok(m),
        gpr_audit_ok(g),
        0 <= d < m.gprs.len(),
    ensures
        vm_audit_ok(m.with_gpr(d, g)),
{
    let m2 = m.with_gpr(d, g);
    assert forall|i: int| 0 <= i < m2.gprs.len() implies gpr_audit_ok(#[trigger] m2.gprs[i]) by {
        if i != d {
            assert(m2.gprs[i] == m.gprs[i]);
        }
    }
}

/// Updating one register with an entry that is audit-free, a retag of the
/// replaced entry, a copy of some entry, or a lo-path product keeps the
/// provenance claim against `m`.
proof fn lemma_update_provenance(m: VmModel, d: int, g: Gpr, ins_addr: SectionAddress)
    requires
        m.gprs.len() == 32,
        0 <= d < 32,
        g.hi_addr is Some && g.lo_addr is Some ==> (g.hi_addr == m.gprs[d].hi_addr && g.lo_addr
            == m.gprs[d].lo_addr) || (exists|j: int| 0 <= j < 32 && g == #[trigger] m.gprs[j])
            || lo_path_from(m, g, ins_addr),
    ensures
        audit_provenance(m, m.with_gpr(d, g), ins_addr),
{
    let m2 = m.with_gpr(d, g);
    assert forall|i: int|
        0 <= i < 32 && (#[trigger] m2.gprs[i]).hi_addr is Some && m2.gprs[i].lo_addr
            is Some implies (m2.gprs[i].hi_addr == m.gprs[i].hi_addr && m2.gprs[i].lo_addr
        == m.gprs[i].lo_addr) || (exists|j: int| 0 <= j < 32 && m2.gprs[i] == #[trigger] m.gprs[j])
        || lo_path_from(m, m2.gprs[i], ins_addr) by {
        if i != d {
            assert(m2.gprs[i] == m.gprs[i]);
        }
    }
}

/// A second update with an audit-free entry keeps both claims.
proof fn lemma_update_again(m: VmModel, m2: VmModel, d: int, g: Gpr, ins_addr: SectionAddress)
    requires
        m.gprs.len() == 32,
        m2.gprs.len() == 32,
        0 <= d < 32,
        vm_audit_ok(m2),
        audit_provenance(m, m2, ins_addr),
        g.lo_addr is None,
    ensures
        vm_audit_ok(m2.with_gpr(d, g)),
        audit_provenance(m, m2.with_gpr(d, g), ins_addr),
{
    lemma_update_audit(m2, d, g);
    let m3 = m2.with_gpr(d, g);
    assert forall|i: int|
        0 <= i < 32 && (#[trigger] m3.gprs[i]).hi_addr is Some && m3.gprs[i].lo_addr
            is Some implies (m3.gprs[i].hi_addr == m.gprs[i].hi_addr && m3.gprs[i].lo_addr
        == m.gprs[i].lo_addr) || (exists|j: int| 0 <= j < 32 && m3.gprs[i] == #[trigger] m.gprs[j])
        || lo_path_from(m, m3.gprs[i], ins_addr) by {
        if i != d {
            assert(m3.gprs[i] == m2.gprs[i]);
        }
    }
}

/// A lo-path entry built from a register of a sound, fresh machine is both
/// audit-sound and covered by the provenance claim.
proof fn lemma_lo_update(m: VmModel, d: int, src: int, v: GprValue, ins_addr: SectionAddress)
    requires
        m.gprs.len() == 32,
        vm_audit_ok(m),
        vm_fresh_at(m, ins_addr),
        0 <= d < 32,
        0 <= src < 32,
    ensures
        vm_audit_ok(m.with_lo(d, v, ins_addr, m.gprs[src])),
        audit_provenance(m, m.with_lo(d, v, ins_addr, m.gprs[src]), ins_addr),
{
    let g = Gpr::spec_lo(v, ins_addr, m.gprs[src]);
    assert(gpr_audit_ok(m.gprs[src]));
    assert(m.gprs[src].hi_addr != Some(ins_addr));
    lemma_lo_gpr_ok(m.gprs[src], v, ins_addr);
    lemma_update_audit(m, d, g);
    assert(g == Gpr::spec_lo(g.value, ins_addr, m.gprs[src]));
    assert(lo_path_from(m, g, ins_addr));
    lemma_update_provenance(m, d, g, ins_addr);
}

proof fn lemma_clobber_audit(m: VmModel, defs: Seq<u8>, k: int)
    requires
        m.gprs.len() == 32,
        forall|j: int| 0 <= j < defs.len() ==> defs[j] < 32,
        k <= defs.len(),
    ensures
        crate::vm::clobber_defs(m.gprs, defs, k).len() == 32,
        forall|i: int|
            0 <= i < 32 ==> #[trigger] crate::vm::clobber_defs(m.gprs, defs, k)[i] == m.gprs[i]
                || crate::vm::clobber_defs(m.gprs, defs, k)[i] == Gpr::spec_direct(
                GprValue::Unknown,
            ),
    decreases k,
{
    if k > 0 {
        lemma_clobber_audit(m, defs, k - 1);
        let prev = crate::vm::clobber_defs(m.gprs, defs, k - 1);
        let cur = crate::vm::clobber_defs(m.gprs, defs, k);
        assert forall|i: int|
            0 <= i < 32 implies #[trigger] cur[i] == m.gprs[i] || cur[i] == Gpr::spec_direct(
            GprValue::Unknown,
        ) by {
            if i != defs[k - 1] as int {
                assert(cur[i] == prev[i]);
            }
        }
    }
}

/// The machine handed to a called function is audit-sound outright: it
/// carries no audit addresses at all.
proof fn lemma_link_audit(m: VmModel)
    requires
        m.gprs.len() == 32,
    ensures
        vm_audit_ok(crate::vm::link_model(m)),
{
    let m2 = crate::vm::link_model(m);
    assert forall|i: int| 0 <= i < m2.gprs.len() implies gpr_audit_ok(#[trigger] m2.gprs[i]) by {
        assert(m2.gprs[i].lo_addr is None);
    }
}

/// The machine seen after a call returns is audit-sound when the caller's
/// machine was: kept registers keep their sound pairs, the rest are fresh.
proof fn lemma_return_audit(m: VmModel)
    requires
        m.gprs.len() == 32,
        vm_audit_ok(m),
    ensures
        vm_audit_ok(crate::vm::return_model(m)),
{
    let m2 = crate::vm::return_model(m);
    assert forall|i: int| 0 <= i < m2.gprs.len() implies gpr_audit_ok(#[trigger] m2.gprs[i]) by {
        if i == 1 || i == 2 || i == 13 || 14 <= i < 32 {
            assert(m2.gprs[i] == m.gprs[i]);
        }
    }
}

/// Refining tagged registers replaces values only, so audit pairs survive.
proof fn lemma_set_cmp_audit(m: VmModel, value: GprValue, crf: usize)
    requires
        m.gprs.len() == 32,
        vm_audit_ok(m),
    ensures
        vm_audit_ok(crate::vm::set_cmp_model(m, value, crf)),
{
    let m2 = crate::vm::set_cmp_model(m, value, crf);
    assert forall|i: int| 0 <= i < m2.gprs.len() implies gpr_audit_ok(#[trigger] m2.gprs[i]) by {
        assert(gpr_audit_ok(m.gprs[i]));
        assert(m2.gprs[i].hi_addr == m.gprs[i].hi_addr && m2.gprs[i].lo_addr == m.gprs[i].lo_addr);
    }
}

/// Audit chain: stepping a machine whose audit pairs are sound, at an
/// instruction address that no register already names as a hi half, keeps
/// every audit pair distinct — in the stepped machine and in every branch
/// fork — and every register entry of the stepped machine that carries
/// both audit addresses either kept its pair, was copied whole from
/// another register, or was produced by the lo-path at this instruction
/// (so the lo audit address is the completing instruction's, or the one
/// inherited from a chained low half).
pub proof fn lemma_step_audit_chain(m: VmModel, obj: ObjInfo, ins_addr: SectionAddress, ins: Ins)
    requires
        m.gprs.len() == 32,
        vm_audit_ok(m),
        vm_fresh_at(m, ins_addr),
        forall|j: int|
            0 <= j < crate::ins::gpr_defs_of(ins.code).len() ==> crate::ins::gpr_defs_of(
                ins.code,
            )[j] < 32,
    ensures
        vm_audit_ok(spec_step(m, obj, ins_addr, ins).0),
        audit_provenance(m, spec_step(m, obj, ins_addr, ins).0, ins_addr),
        spec_step(m, obj, ins_addr, ins).1 matches StepModel::Branch(bs) ==> forall|k: int|
            0 <= k < bs.len() ==> vm_audit_ok((#[trigger] bs[k]).vm),
{
    let code = ins.code;
    let op = ins.op;
    crate::ins::lemma_and_31_lt_32(code >> 21);
    crate::ins::lemma_and_31_lt_32(code >> 16);
    crate::ins::lemma_and_31_lt_32(code >> 11);
    crate::ins::lemma_and_7_lt_8(code >> 23);
    let rd = crate::ins::spec_rd(code) as int;
    let ra = crate::ins::spec_ra(code) as int;
    let rb = crate::ins::spec_rb(code) as int;
    let rs = crate::ins::spec_rs(code) as int;
    let m2 = spec_step(m, obj, ins_addr, ins).0;
    let res = spec_step(m, obj, ins_addr, ins).1;
    if op == Opcode::Add || op == Opcode::Lwzx || op == Opcode::Mfspr || op == Opcode::Rlwinm
        || op == Opcode::Rlwnm {
        // a single direct write
        assert(m2.gprs == m.gprs.update(
            if op == Opcode::Add || op == Opcode::Lwzx || op == Opcode::Mfspr {
                rd
            } else {
                ra
            },
            Gpr::spec_direct(m2.gprs[if op == Opcode::Add || op == Opcode::Lwzx || op
                == Opcode::Mfspr {
                rd
            } else {
                ra
            }].value),
        ));
        let d = if op == Opcode::Add || op == Opcode::Lwzx || op == Opcode::Mfspr {
            rd
        } else {
            ra
        };
        let g = Gpr::spec_direct(m2.gprs[d].value);
        lemma_update_audit(m, d, g);
        lemma_update_provenance(m, d, g, ins_addr);
    } else if op == Opcode::Addis {
        match crate::obj::spec_relocation_target_for(obj, ins_addr) {
            Some(target) => {
                let g = Gpr::spec_hi(GprValue::Address(target), ins_addr);
                lemma_update_audit(m, rd, g);
                lemma_update_provenance(m, rd, g, ins_addr);
            },
            None => {
                let g = m2.gprs[rd];
                assert(g.lo_addr is None);
                lemma_update_audit(m, rd, g);
                lemma_update_provenance(m, rd, g, ins_addr);
            },
        }
    } else if op == Opcode::Addi || op == Opcode::Addic || op == Opcode::Addic_ {
        match crate::obj::spec_relocation_target_for(obj, ins_addr) {
            Some(target) => {
                lemma_lo_update(m, rd, ra, GprValue::Address(target), ins_addr);
            },
            None => {
                if crate::ins::spec_ra(code) == 0 {
                    let g = m2.gprs[rd];
                    assert(g.lo_addr is None);
                    lemma_update_audit(m, rd, g);
                    lemma_update_provenance(m, rd, g, ins_addr);
                } else {
                    lemma_lo_update(m, rd, ra, m2.gprs[rd].value, ins_addr);
                }
            },
        }
    } else if op == Opcode::Ori {
        lemma_lo_update(m, ra, rs, m2.gprs[ra].value, ins_addr);
    } else if op == Opcode::Or {
        if crate::ins::spec_rs(code) == crate::ins::spec_rb(code) {
            let g = m.gprs[rs];
            assert(gpr_audit_ok(g));
            lemma_update_audit(m, ra, g);
            lemma_update_provenance(m, ra, g, ins_addr);
        } else {
            let g = Gpr::spec_direct(m2.gprs[ra].value);
            lemma_update_audit(m, ra, g);
            lemma_update_provenance(m, ra, g, ins_addr);
        }
    } else if op == Opcode::Cmp || op == Opcode::Cmpi || op == Opcode::Cmpl || op
        == Opcode::Cmpli {
        if crate::ins::spec_l_bit(code) == 0 {
            let mcr = m.with_cr(crate::ins::spec_crfd(code) as int, m2.crs[crate::ins::spec_crfd(
                code,
            ) as int]);
            assert(mcr.gprs == m.gprs);
            let g = Gpr { value: m2.gprs[ra].value, ..m.gprs[ra] };
            assert(gpr_audit_ok(g)) by {
                assert(gpr_audit_ok(m.gprs[ra]));
            }
            assert(m2.gprs == m.gprs.update(ra, g));
            lemma_update_audit(m, ra, g);
            lemma_update_provenance(m, ra, g, ins_addr);
            assert(vm_audit_ok(m2)) by {
                assert(m2.gprs == m.with_gpr(ra, g).gprs);
            }
            assert(audit_provenance(m, m2, ins_addr)) by {
                assert(m2.gprs == m.with_gpr(ra, g).gprs);
            }
        }
    } else if op == Opcode::B || op == Opcode::Bc || op == Opcode::Bcctr || op == Opcode::Bclr {
        // the stepped machine itself is unchanged; only the forks carry
        // new machines
        assert(m2 == m);
        match res {
            StepModel::Branch(bs) => {
                assert forall|k: int|
                    0 <= k < bs.len() implies vm_audit_ok((#[trigger] bs[k]).vm) by {
                    lemma_link_audit(m);
                    lemma_return_audit(m);
                    let crf = (crate::ins::spec_bi(code) / 4) as usize;
                    let pair = crate::value::spec_split_values_by_crb(
                        (crate::ins::spec_bi(code) % 4) as u8,
                        m.crs[crf as int].left,
                        m.crs[crf as int].right,
                    );
                    lemma_set_cmp_audit(m, pair.0, crf);
                    lemma_set_cmp_audit(m, pair.1, crf);
                }
            },
            _ => {},
        }
    } else if op == Opcode::Mtspr || op == Opcode::Illegal || op == Opcode::Rfi {
        assert(m2.gprs == m.gprs);
    } else if crate::ins::spec_is_load_store_op(op) {
        let g = m.gprs[ra];
        match g.value {
            GprValue::Address(target) => {
                let mu = if crate::ins::spec_is_update_op(op) {
                    lemma_lo_update(m, ra, ra, GprValue::Address(target), ins_addr);
                    m.with_lo(ra, GprValue::Address(target), ins_addr, g)
                } else {
                    m
                };
                if crate::ins::spec_is_load_op(op) {
                    lemma_update_again(m, mu, rd, Gpr::spec_direct(GprValue::Unknown), ins_addr);
                }
            },
            GprValue::Constant(base) => {
                let address = base.wrapping_add(crate::ins::spec_simm(code) as u32);
                match crate::obj::spec_section_address_for(obj, ins_addr, address) {
                    Some(target) => {
                        let mu = if crate::ins::spec_is_update_op(op) {
                            lemma_lo_update(m, ra, ra, GprValue::Address(target), ins_addr);
                            m.with_lo(ra, GprValue::Address(target), ins_addr, g)
                        } else {
                            m
                        };
                        if crate::ins::spec_is_load_op(op) {
                            lemma_update_again(
                                m,
                                mu,
                                rd,
                                Gpr::spec_direct(GprValue::Unknown),
                                ins_addr,
                            );
                        }
                    },
                    None => {
                        if crate::ins::spec_is_load_op(op) {
                            lemma_update_again(
                                m,
                                m,
                                rd,
                                Gpr::spec_direct(GprValue::Unknown),
                                ins_addr,
                            );
                        }
                    },
                }
            },
            _ => {
                let mu = if crate::ins::spec_is_update_op(op) {
                    let gu = Gpr::spec_direct(GprValue::Unknown);
                    lemma_update_audit(m, ra, gu);
                    lemma_update_provenance(m, ra, gu, ins_addr);
                    m.with_direct(ra, GprValue::Unknown)
                } else {
                    m
                };
                if crate::ins::spec_is_load_op(op) {
                    lemma_update_again(m, mu, rd, Gpr::spec_direct(GprValue::Unknown), ins_addr);
                }
            },
        }
    } else {
        // default write-back rule
        let defs = crate::ins::gpr_defs_of(code);
        lemma_clobber_audit(m, defs, defs.len() as int);
        assert forall|i: int| 0 <= i < m2.gprs.len() implies gpr_audit_ok(#[trigger] m2.gprs[i]) by {
            assert(m2.gprs[i] == m.gprs[i] || m2.gprs[i] == Gpr::spec_direct(GprValue::Unknown));
            assert(gpr_audit_ok(m.gprs[i]));
        }
        assert forall|i: int|
            0 <= i < 32 && (#[trigger] m2.gprs[i]).hi_addr is Some && m2.gprs[i].lo_addr
                is Some implies (m2.gprs[i].hi_addr == m.gprs[i].hi_addr && m2.gprs[i].lo_addr
            == m.gprs[i].lo_addr) || (exists|j: int|
            0 <= j < 32 && m2.gprs[i] == #[trigger] m.gprs[j]) || lo_path_from(
            m,
            m2.gprs[i],
            ins_addr,
        ) by {
            assert(m2.gprs[i] == m.gprs[i] || m2.gprs[i] == Gpr::spec_direct(GprValue::Unknown));
        }
    }
}

/// `w` is no more specific than `b`: the same abstract value, unknown, a
/// range wide enough for everything `b` allows, or an indexed load from
/// the same table with the offset bound dropped.
pub open spec fn value_no_more_specific(w: GprValue, b: GprValue) -> bool {
    ||| w == b
    ||| w == GprValue::Unknown
    ||| (w matches GprValue::Range { min: wmin, max: wmax, step: _ } && ((b matches
        GprValue::Constant(c) && wmin <= c <= wmax) || (b matches GprValue::Range {
        min: bmin,
        max: bmax,
        step: _,
    } && wmin <= bmin && bmax <= wmax)))
    ||| (w matches GprValue::LoadIndexed { address: wa, max_offset: None } && b matches
        GprValue::LoadIndexed { address: ba, max_offset: _ } && wa == ba)
}

/// Pointwise: no register of `w` — the GPRs and the CTR — is more
/// specific than the same register of `b`.
pub open spec fn vm_no_more_specific(w: VmModel, b: VmModel) -> bool {
    &&& w.gprs.len() == b.gprs.len()
    &&& forall|i: int|
        0 <= i < w.gprs.len() ==> value_no_more_specific(
            (#[trigger] w.gprs[i]).value,
            b.gprs[i].value,
        )
    &&& value_no_more_specific(w.ctr, b.ctr)
}

/// Whenever the precise run forks, the weakened run forks the same way,
/// and no fork's machine is more specific.
pub open spec fn result_no_more_specific(ru: StepModel, rb: StepModel) -> bool {
    rb matches StepModel::Branch(bs) ==> (ru matches StepModel::Branch(us) && us.len() == bs.len()
        && forall|k: int|
        0 <= k < bs.len() ==> vm_no_more_specific((#[trigger] us[k]).vm, bs[k].vm))
}

proof fn lemma_mono_base(m: VmModel, r: int)
    requires
        m.gprs.len() == 32,
        0 <= r < 32,
    ensures
        vm_no_more_specific(m.with_value(r, GprValue::Unknown), m),
{
    let mu = m.with_value(r, GprValue::Unknown);
    assert forall|i: int| 0 <= i < mu.gprs.len() implies value_no_more_specific(
        (#[trigger] mu.gprs[i]).value,
        m.gprs[i].value,
    ) by {
        if i != r {
            assert(mu.gprs[i] == m.gprs[i]);
        }
    }
}

proof fn lemma_mono_update2(wu: VmModel, wb: VmModel, d: int, gu: Gpr, gb: Gpr)
    requires
        wu.gprs.len() == 32,
        wb.gprs.len() == 32,
        vm_no_more_specific(wu, wb),
        0 <= d < 32,
        value_no_more_specific(gu.value, gb.value),
    ensures
        vm_no_more_specific(wu.with_gpr(d, gu), wb.with_gpr(d, gb)),
{
    let nu = wu.with_gpr(d, gu);
    let nb = wb.with_gpr(d, gb);
    assert forall|i: int| 0 <= i < nu.gprs.len() implies value_no_more_specific(
        (#[trigger] nu.gprs[i]).value,
        nb.gprs[i].value,
    ) by {
        if i != d {
            assert(nu.gprs[i] == wu.gprs[i]);
            assert(nb.gprs[i] == wb.gprs[i]);
        }
    }
}

proof fn lemma_and_le(x: u32, mask: u32)
    ensures
        x & mask <= mask,
{
    assert(x & mask <= mask) by (bit_vector);
}

proof fn lemma_clobber_mono(gu: Seq<Gpr>, gb: Seq<Gpr>, defs: Seq<u8>, k: int)
    requires
        gu.len() == 32,
        gb.len() == 32,
        forall|j: int| 0 <= j < defs.len() ==> defs[j] < 32,
        k <= defs.len(),
        forall|i: int|
            0 <= i < 32 ==> value_no_more_specific((#[trigger] gu[i]).value, gb[i].value),
    ensures
        crate::vm::clobber_defs(gu, defs, k).len() == 32,
        crate::vm::clobber_defs(gb, defs, k).len() == 32,
        forall|i: int|
            0 <= i < 32 ==> value_no_more_specific(
                (#[trigger] crate::vm::clobber_defs(gu, defs, k)[i]).value,
                crate::vm::clobber_defs(gb, defs, k)[i].value,
            ),
    decreases k,
{
    if k > 0 {
        lemma_clobber_mono(gu, gb, defs, k - 1);
        let pu = crate::vm::clobber_defs(gu, defs, k - 1);
        let pb = crate::vm::clobber_defs(gb, defs, k - 1);
        let cu = crate::vm::clobber_defs(gu, defs, k);
        let cb = crate::vm::clobber_defs(gb, defs, k);
        assert forall|i: int| 0 <= i < 32 implies value_no_more_specific(
            (#[trigger] cu[i]).value,
            cb[i].value,
        ) by {
            if i != defs[k - 1] as int {
                assert(cu[i] == pu[i]);
                assert(cb[i] == pb[i]);
            }
        }
    }
}

proof fn lemma_set_cmp_mono(m: VmModel, r: int, value: GprValue, crf: usize)
    requires
        m.gprs.len() == 32,
        0 <= r < 32,
    ensures
        vm_no_more_specific(
            crate::vm::set_cmp_model(m.with_value(r, GprValue::Unknown), value, crf),
            crate::vm::set_cmp_model(m, value, crf),
        ),
{
    let mu = m.with_value(r, GprValue::Unknown);
    let su = crate::vm::set_cmp_model(mu, value, crf);
    let sb = crate::vm::set_cmp_model(m, value, crf);
    assert forall|i: int| 0 <= i < su.gprs.len() implies value_no_more_specific(
        (#[trigger] su.gprs[i]).value,
        sb.gprs[i].value,
    ) by {
        if i != r {
            assert(mu.gprs[i] == m.gprs[i]);
        }
    }
}

/// Unknown-monotonicity: replacing any one GPR's value with `Unknown`
/// before a step never improves the precision of any GPR or of the CTR
/// afterwards — not in the stepped machine, and not in any branch fork's
/// machine.
pub proof fn lemma_step_unknown_monotone(
    m: VmModel,
    obj: ObjInfo,
    ins_addr: SectionAddress,
    ins: Ins,
    r: int,
)
    requires
        m.gprs.len() == 32,
        0 <= r < 32,
        forall|j: int|
            0 <= j < crate::ins::gpr_defs_of(ins.code).len() ==> crate::ins::gpr_defs_of(
                ins.code,
            )[j] < 32,
    ensures
        vm_no_more_specific(
            spec_step(m.with_value(r, GprValue::Unknown), obj, ins_addr, ins).0,
            spec_step(m, obj, ins_addr, ins).0,
        ),
        result_no_more_specific(
            spec_step(m.with_value(r, GprValue::Unknown), obj, ins_addr, ins).1,
            spec_step(m, obj, ins_addr, ins).1,
        ),
{
    let code = ins.code;
    let op = ins.op;
    crate::ins::lemma_and_31_lt_32(code >> 21);
    crate::ins::lemma_and_31_lt_32(code >> 16);
    crate::ins::lemma_and_31_lt_32(code >> 11);
    crate::ins::lemma_and_7_lt_8(code >> 23);
    let rd = crate::ins::spec_rd(code) as int;
    let ra = crate::ins::spec_ra(code) as int;
    let rb = crate::ins::spec_rb(code) as int;
    let rs = crate::ins::spec_rs(code) as int;
    let mu = m.with_value(r, GprValue::Unknown);
    let wu = spec_step(mu, obj, ins_addr, ins).0;
    let wb = spec_step(m, obj, ins_addr, ins).0;
    lemma_mono_base(m, r);
    if ra != r {
        assert(mu.gprs[ra] == m.gprs[ra]);
    }
    if rb != r {
        assert(mu.gprs[rb] == m.gprs[rb]);
    }
    if rs != r {
        assert(mu.gprs[rs] == m.gprs[rs]);
    }

    if op == Opcode::Illegal || op == Opcode::Rfi {
        assert(wu.gprs == mu.gprs);
        assert(wb.gprs == m.gprs);
    } else if op == Opcode::Mtspr {
        assert(wu.gprs == mu.gprs);
        assert(wb.gprs == m.gprs);
        if crate::ins::spec_spr(code) == 9 && rs == r {
            assert(wu.ctr == GprValue::Unknown);
        }
    } else if op == Opcode::Add {
        lemma_mono_update2(
            mu,
            m,
            rd,
            Gpr::spec_direct(crate::vm::spec_add_value(mu.gprs[ra].value, mu.gprs[rb].value)),
            Gpr::spec_direct(crate::vm::spec_add_value(m.gprs[ra].value, m.gprs[rb].value)),
        );
    } else if op == Opcode::Addis {
        match crate::obj::spec_relocation_target_for(obj, ins_addr) {
            Some(target) => {
                lemma_mono_update2(
                    mu,
                    m,
                    rd,
                    Gpr::spec_hi(GprValue::Address(target), ins_addr),
                    Gpr::spec_hi(GprValue::Address(target), ins_addr),
                );
            },
            None => {
                lemma_mono_update2(mu, m, rd, wu.gprs[rd], wb.gprs[rd]);
            },
        }
    } else if op == Opcode::Addi || op == Opcode::Addic || op == Opcode::Addic_ {
        lemma_mono_update2(mu, m, rd, wu.gprs[rd], wb.gprs[rd]);
    } else if op == Opcode::Ori {
        lemma_mono_update2(mu, m, ra, wu.gprs[ra], wb.gprs[ra]);
    } else if op == Opcode::Or {
        lemma_mono_update2(mu, m, ra, wu.gprs[ra], wb.gprs[ra]);
    } else if op == Opcode::Cmp || op == Opcode::Cmpi || op == Opcode::Cmpl || op
        == Opcode::Cmpli {
        if crate::ins::spec_l_bit(code) == 0 {
            lemma_mono_update2(mu, m, ra, wu.gprs[ra], wb.gprs[ra]);
            assert(wu.gprs == mu.gprs.update(ra, wu.gprs[ra]));
            assert(wb.gprs == m.gprs.update(ra, wb.gprs[ra]));
        }
    } else if op == Opcode::Rlwinm || op == Opcode::Rlwnm {
        let mask = crate::bits::spec_mask(crate::ins::spec_mb(code), crate::ins::spec_me(code));
        assert forall|x: u32| #[trigger] (x & mask) <= mask by {
            lemma_and_le(x, mask);
        }
        lemma_mono_update2(mu, m, ra, wu.gprs[ra], wb.gprs[ra]);
    } else if op == Opcode::B || op == Opcode::Bc || op == Opcode::Bcctr || op == Opcode::Bclr {
        if crate::ins::spec_lk(code) {
            let lu = crate::vm::link_model(mu);
            let lb = crate::vm::link_model(m);
            let retu = crate::vm::return_model(mu);
            let retb = crate::vm::return_model(m);
            assert(vm_no_more_specific(lu, lb)) by {
                assert forall|i: int| 0 <= i < lu.gprs.len() implies value_no_more_specific(
                    (#[trigger] lu.gprs[i]).value,
                    lb.gprs[i].value,
                ) by {
                    if i == 2 || i == 13 {
                        if i != r {
                            assert(mu.gprs[i] == m.gprs[i]);
                        }
                    } else {
                        assert(lu.gprs[i].value == GprValue::Unknown);
                    }
                }
            }
            assert(vm_no_more_specific(retu, retb)) by {
                assert forall|i: int| 0 <= i < retu.gprs.len() implies value_no_more_specific(
                    (#[trigger] retu.gprs[i]).value,
                    retb.gprs[i].value,
                ) by {
                    if (i == 1 || i == 2 || i == 13 || (14 <= i < 32)) && i != r {
                        assert(mu.gprs[i] == m.gprs[i]);
                    }
                }
            }
        } else {
            let crf = (crate::ins::spec_bi(code) / 4) as usize;
            let crb = (crate::ins::spec_bi(code) % 4) as u8;
            assert(mu.crs == m.crs);
            let pair = crate::value::spec_split_values_by_crb(
                crb,
                m.crs[crf as int].left,
                m.crs[crf as int].right,
            );
            lemma_set_cmp_mono(m, r, pair.0, crf);
            lemma_set_cmp_mono(m, r, pair.1, crf);
        }
    } else if op == Opcode::Lwzx {
        lemma_mono_update2(mu, m, rd, wu.gprs[rd], wb.gprs[rd]);
    } else if op == Opcode::Mfspr {
        lemma_mono_update2(mu, m, rd, wu.gprs[rd], wb.gprs[rd]);
    } else if crate::ins::spec_is_load_store_op(op) {
        if ra != r {
            // both runs take the same branch of the address computation
            match m.gprs[ra].value {
                GprValue::Address(target) => {
                    let m2u = if crate::ins::spec_is_update_op(op) {
                        mu.with_lo(ra, GprValue::Address(target), ins_addr, mu.gprs[ra])
                    } else {
                        mu
                    };
                    let m2b = if crate::ins::spec_is_update_op(op) {
                        m.with_lo(ra, GprValue::Address(target), ins_addr, m.gprs[ra])
                    } else {
                        m
                    };
                    if crate::ins::spec_is_update_op(op) {
                        lemma_mono_update2(
                            mu,
                            m,
                            ra,
                            Gpr::spec_lo(GprValue::Address(target), ins_addr, mu.gprs[ra]),
                            Gpr::spec_lo(GprValue::Address(target), ins_addr, m.gprs[ra]),
                        );
                    }
                    if crate::ins::spec_is_load_op(op) {
                        lemma_mono_update2(
                            m2u,
                            m2b,
                            rd,
                            Gpr::spec_direct(GprValue::Unknown),
                            Gpr::spec_direct(GprValue::Unknown),
                        );
                    }
                },
                GprValue::Constant(base) => {
                    let address = base.wrapping_add(crate::ins::spec_simm(code) as u32);
                    match crate::obj::spec_section_address_for(obj, ins_addr, address) {
                        Some(target) => {
                            let m2u = if crate::ins::spec_is_update_op(op) {
                                mu.with_lo(ra, GprValue::Address(target), ins_addr, mu.gprs[ra])
                            } else {
                                mu
                            };
                            let m2b = if crate::ins::spec_is_update_op(op) {
                                m.with_lo(ra, GprValue::Address(target), ins_addr, m.gprs[ra])
                            } else {
                                m
                            };
                            if crate::ins::spec_is_update_op(op) {
                                lemma_mono_update2(
                                    mu,
                                    m,
                                    ra,
                                    Gpr::spec_lo(GprValue::Address(target), ins_addr, mu.gprs[ra]),
                                    Gpr::spec_lo(GprValue::Address(target), ins_addr, m.gprs[ra]),
                                );
                            }
                            if crate::ins::spec_is_load_op(op) {
                                lemma_mono_update2(
                                    m2u,
                                    m2b,
                                    rd,
                                    Gpr::spec_direct(GprValue::Unknown),
                                    Gpr::spec_direct(GprValue::Unknown),
                                );
                            }
                        },
                        None => {
                            if crate::ins::spec_is_load_op(op) {
                                lemma_mono_update2(
                                    mu,
                                    m,
                                    rd,
                                    Gpr::spec_direct(GprValue::Unknown),
                                    Gpr::spec_direct(GprValue::Unknown),
                                );
                            }
                        },
                    }
                },
                _ => {
                    let m2u = if crate::ins::spec_is_update_op(op) {
                        mu.with_direct(ra, GprValue::Unknown)
                    } else {
                        mu
                    };
                    let m2b = if crate::ins::spec_is_update_op(op) {
                        m.with_direct(ra, GprValue::Unknown)
                    } else {
                        m
                    };
                    if crate::ins::spec_is_update_op(op) {
                        lemma_mono_update2(
                            mu,
                            m,
                            ra,
                            Gpr::spec_direct(GprValue::Unknown),
                            Gpr::spec_direct(GprValue::Unknown),
                        );
                    }
                    if crate::ins::spec_is_load_op(op) {
                        lemma_mono_update2(
                            m2u,
                            m2b,
                            rd,
                            Gpr::spec_direct(GprValue::Unknown),
                            Gpr::spec_direct(GprValue::Unknown),
                        );
                    }
                },
            }
        } else {
            // the weakened run sees an unknown base: whatever it writes to
            // `ra` or `rd` is unknown, and everything else keeps the
            // weakened starting value
            assert forall|i: int| 0 <= i < wu.gprs.len() implies value_no_more_specific(
                (#[trigger] wu.gprs[i]).value,
                wb.gprs[i].value,
            ) by {
                if i == rd && crate::ins::spec_is_load_op(op) {
                    assert(wu.gprs[i].value == GprValue::Unknown);
                    assert(wb.gprs[i].value == GprValue::Unknown);
                } else if i == r {
                    assert(wu.gprs[i].value == GprValue::Unknown);
                } else {
                    assert(wu.gprs[i] == mu.gprs[i]);
                    assert(wb.gprs[i] == m.gprs[i]);
                    assert(mu.gprs[i] == m.gprs[i]);
                }
            }
        }
    } else {
        lemma_clobber_mono(mu.gprs, m.gprs, crate::ins::gpr_defs_of(code), crate::ins::gpr_defs_of(
            code,
        ).len() as int);
    }
}

} // verus!
