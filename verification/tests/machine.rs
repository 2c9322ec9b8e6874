//! Unit tests: mask building, rotation, refinement splits, opcode
//! predicates, object resolution, decoding and the per-opcode transfer
//! rules.

use ppc_vm::bits::{mask_value, rotl32};
use ppc_vm::ins::{
    Ins, Opcode, is_load_op, is_load_store_op, is_loadf_op, is_store_op, is_storef_op,
    is_update_op,
};
use ppc_vm::obj::{
    ObjInfo, ObjKind, ObjSection, Relocation, RelocationTarget, SectionAddress,
    section_address_for,
};
use ppc_vm::value::{Gpr, GprValue, split_values_by_crb};
use ppc_vm::vm::{BranchTarget, StepResult, VM};

fn mk_obj(kind: ObjKind, relocations: Vec<Relocation>) -> ObjInfo {
    ObjInfo {
        kind,
        sections: vec![
            ObjSection { address: 0x8000_0000, size: 0x60_0000 },
            ObjSection { address: 0x8070_0000, size: 0x1000 },
        ],
        relocations,
        sda2_base: None,
        sda_base: None,
    }
}

fn pos(section: usize, address: u32) -> SectionAddress {
    SectionAddress { section, address }
}

#[test]
fn masks_match_their_intervals() {
    assert_eq!(mask_value(27, 29), 28);
    assert_eq!(mask_value(25, 29), 124);
    assert_eq!(mask_value(0, 31), u32::MAX);
    assert_eq!(mask_value(0, 0), 0x8000_0000);
    assert_eq!(mask_value(31, 31), 1);
    // begin == end + 1 names all bits
    assert_eq!(mask_value(5, 4), u32::MAX);
    // wrap-around: all bits except 28
    assert_eq!(mask_value(29, 27), !(1u32 << 3));
}

#[test]
fn mask_popcount_equals_interval_size() {
    for mb in 0..32u32 {
        for me in 0..32u32 {
            let expected = (0..32u32)
                .filter(|&b| if mb <= me { mb <= b && b <= me } else { b <= me || mb <= b })
                .count() as u32;
            assert_eq!(mask_value(mb, me).count_ones(), expected, "mb={} me={}", mb, me);
        }
    }
}

#[test]
fn rotation_matches_the_machine_rotate() {
    assert_eq!(rotl32(1, 12), 1u32.rotate_left(12));
    assert_eq!(rotl32(0xdead_beef, 0), 0xdead_beef);
    assert_eq!(rotl32(0x8000_0001, 1), 3);
    assert_eq!(rotl32(0x1234_5678, 32), 0x1234_5678);
    assert_eq!(rotl32(0x1234_5678, 36), 0x1234_5678u32.rotate_left(36));
}

#[test]
fn split_refines_lt_gt_eq_and_ignores_so() {
    let unknown = GprValue::Unknown;
    let c = GprValue::Constant(10);
    // lt: left >= 10 on the false edge, left < 10 on the taken edge
    assert_eq!(
        split_values_by_crb(0, unknown, c),
        (
            GprValue::Range { min: 10, max: u32::MAX, step: 1 },
            GprValue::Range { min: 0, max: 9, step: 1 }
        )
    );
    // gt: left <= 10 / left > 10
    assert_eq!(
        split_values_by_crb(1, unknown, c),
        (
            GprValue::Range { min: 0, max: 10, step: 1 },
            GprValue::Range { min: 11, max: u32::MAX, step: 1 }
        )
    );
    // lt over an existing range clamps both bounds and keeps the stride
    let range = GprValue::Range { min: 4, max: 40, step: 4 };
    assert_eq!(
        split_values_by_crb(0, range, c),
        (
            GprValue::Range { min: 10, max: 40, step: 4 },
            GprValue::Range { min: 4, max: 9, step: 4 }
        )
    );
    // eq on two constants: the false edge of an always-true compare knows
    // nothing, the taken edge pins the constant
    assert_eq!(
        split_values_by_crb(2, GprValue::Constant(7), GprValue::Constant(7)),
        (GprValue::Unknown, GprValue::Constant(7))
    );
    assert_eq!(
        split_values_by_crb(2, GprValue::Constant(8), GprValue::Constant(7)),
        (GprValue::Constant(8), GprValue::Constant(7))
    );
    // so: no refinement either way
    assert_eq!(split_values_by_crb(3, range, c), (range, range));
}

#[test]
fn opcode_class_membership() {
    assert!(is_load_op(Opcode::Lwz));
    assert!(is_load_op(Opcode::Lmw));
    assert!(!is_load_op(Opcode::Lwzx));
    assert!(!is_load_op(Opcode::Lfd));
    assert!(is_loadf_op(Opcode::Lfs));
    assert!(is_store_op(Opcode::Stmw));
    assert!(!is_store_op(Opcode::Stfd));
    assert!(is_storef_op(Opcode::Stfdu));
    assert!(is_load_store_op(Opcode::Lbz));
    assert!(is_load_store_op(Opcode::Stfsu));
    // the indexed update forms are update ops but not immediate-offset
    // load/store ops
    assert!(is_update_op(Opcode::Lbzux));
    assert!(!is_load_store_op(Opcode::Lbzux));
    assert!(is_update_op(Opcode::Stwu));
    assert!(!is_update_op(Opcode::Stw));
    assert!(!is_update_op(Opcode::Lwzx));
}

#[test]
fn decoding_names_the_modeled_opcodes() {
    assert_eq!(Ins::new(0x3cc08052).op, Opcode::Addis);
    assert_eq!(Ins::new(0x38c60e18).op, Opcode::Addi);
    assert_eq!(Ins::new(0x550066fa).op, Opcode::Rlwinm);
    assert_eq!(Ins::new(0x7d86002e).op, Opcode::Lwzx);
    assert_eq!(Ins::new(0x7d8903a6).op, Opcode::Mtspr);
    assert_eq!(Ins::new(0x7c0802a6).op, Opcode::Mfspr);
    assert_eq!(Ins::new(0x4e800420).op, Opcode::Bcctr);
    assert_eq!(Ins::new(0x4e800020).op, Opcode::Bclr);
    assert_eq!(Ins::new(0x48000101).op, Opcode::B);
    assert_eq!(Ins::new(0x418160bc).op, Opcode::Bc);
    assert_eq!(Ins::new(0x28000127).op, Opcode::Cmpli);
    assert_eq!(Ins::new(0x60000000).op, Opcode::Ori);
    assert_eq!(Ins::new(0x7cc53378).op, Opcode::Or);
    assert_eq!(Ins::new(0x90610008).op, Opcode::Stw);
    assert_eq!(Ins::new(0x84850004).op, Opcode::Lwzu);
    assert_eq!(Ins::new(0xc8230000).op, Opcode::Lfd);
    assert_eq!(Ins::new(0x00000000).op, Opcode::Illegal);
    assert_eq!(Ins::new(0x4c000064).op, Opcode::Rfi);
    // an opcode outside the model decodes to Other
    assert_eq!(Ins::new(0x1c640005).op, Opcode::Other); // mulli
}

#[test]
fn operand_fields_are_plain_bit_extractions() {
    let ins = Ins::new(0x38c60e18); // addi r6, r6, 0xe18
    assert_eq!(ins.field_rd(), 6);
    assert_eq!(ins.field_ra(), 6);
    assert_eq!(ins.field_simm(), 0xe18);
    let ins = Ins::new(0x550066fa); // rlwinm r0, r8, 12, 27, 29
    assert_eq!(ins.field_ra(), 0);
    assert_eq!(ins.field_rs(), 8);
    assert_eq!(ins.field_sh(), 12);
    assert_eq!(ins.field_mb(), 27);
    assert_eq!(ins.field_me(), 29);
    let ins = Ins::new(0x418160bc); // bgt 0x60bc
    assert_eq!(ins.field_bo(), 0b01100);
    assert_eq!(ins.field_bi(), 1);
    assert!(!ins.field_lk());
    assert!(!ins.field_aa());
    let ins = Ins::new(0x7d8903a6); // mtspr CTR, r12
    assert_eq!(ins.field_spr(), 9);
    assert_eq!(ins.field_rs(), 12);
    // branch destinations resolve relative to the instruction address
    let bl = Ins::new(0x48000101);
    assert_eq!(bl.branch_dest(0x80465320), Some(0x80465420));
    let bc = Ins::new(0x418160bc);
    assert_eq!(bc.branch_dest(0x800ed45c), Some(0x800f3518));
    assert_eq!(Ins::new(0x7d8903a6).branch_dest(0x1000), None);
}

#[test]
fn address_resolution_prefers_relocations() {
    // a relocation at the instruction wins over section layout
    let obj = mk_obj(
        ObjKind::Executable,
        vec![Relocation { at: pos(0, 0x8000_0100), target: RelocationTarget::External }],
    );
    assert_eq!(
        section_address_for(&obj, pos(0, 0x8000_0100), 0x8000_0200),
        Some(RelocationTarget::External)
    );
    // an executable resolves any address inside a section
    assert_eq!(
        section_address_for(&obj, pos(0, 0x8000_0104), 0x8070_0010),
        Some(RelocationTarget::Address(pos(1, 0x8070_0010)))
    );
    assert_eq!(section_address_for(&obj, pos(0, 0x8000_0104), 0x9000_0000), None);
    // a relocatable object only resolves inside the current section
    let rel = mk_obj(ObjKind::Relocatable, vec![]);
    assert_eq!(
        section_address_for(&rel, pos(0, 0x100), 0x8000_0200),
        Some(RelocationTarget::Address(pos(0, 0x8000_0200)))
    );
    assert_eq!(section_address_for(&rel, pos(0, 0x100), 0x8070_0010), None);
}

#[test]
fn relocated_immediates_become_addresses() {
    let target = RelocationTarget::Address(pos(1, 0x8070_0040));
    let obj = mk_obj(
        ObjKind::Executable,
        vec![
            Relocation { at: pos(0, 0x8000_0100), target },
            Relocation { at: pos(0, 0x8000_0104), target },
        ],
    );
    let mut vm = VM::new();
    // lis r4, 0x8070 (hi half, annotated by a relocation)
    assert_eq!(vm.step(&obj, pos(0, 0x8000_0100), &Ins::new(0x3c808070)), StepResult::Continue);
    assert_eq!(vm.gpr_value(4), GprValue::Address(target));
    assert_eq!(vm.gpr[4].hi_addr, Some(pos(0, 0x8000_0100)));
    assert_eq!(vm.gpr[4].lo_addr, None);
    // addi r4, r4, 0x40 (lo half, annotated by a relocation): the hi audit
    // address is inherited, the lo audit address is this instruction's
    assert_eq!(vm.step(&obj, pos(0, 0x8000_0104), &Ins::new(0x38840040)), StepResult::Continue);
    assert_eq!(vm.gpr_value(4), GprValue::Address(target));
    assert_eq!(vm.gpr[4].hi_addr, Some(pos(0, 0x8000_0100)));
    assert_eq!(vm.gpr[4].lo_addr, Some(pos(0, 0x8000_0104)));
}

#[test]
fn loads_and_stores_report_memory_accesses() {
    let obj = mk_obj(ObjKind::Executable, vec![]);
    let mut vm = VM::new();
    vm.gpr[1] = Gpr { value: GprValue::Constant(0x8000_1000), hi_addr: None, lo_addr: None };
    // stw r3, 8(r1)
    let r = vm.step(&obj, pos(0, 0x8000_0100), &Ins::new(0x90610008));
    assert_eq!(
        r,
        StepResult::LoadStore {
            address: RelocationTarget::Address(pos(0, 0x8000_1008)),
            source: Gpr { value: GprValue::Constant(0x8000_1000), hi_addr: None, lo_addr: None },
            source_reg: 1,
        }
    );
    // the store clobbers no register
    assert_eq!(vm.gpr_value(1), GprValue::Constant(0x8000_1000));

    // lwzu r4, 4(r5) with r5 holding an address: the update form writes
    // the base back through the lo-path and the load clobbers r4
    let target = RelocationTarget::Address(pos(0, 0x8000_2000));
    vm.gpr[5] = Gpr { value: GprValue::Address(target), hi_addr: None, lo_addr: None };
    vm.gpr[4] = Gpr { value: GprValue::Constant(7), hi_addr: None, lo_addr: None };
    let r = vm.step(&obj, pos(0, 0x8000_0104), &Ins::new(0x84850004));
    assert_eq!(
        r,
        StepResult::LoadStore {
            address: target,
            source: Gpr {
                value: GprValue::Address(target),
                hi_addr: None,
                lo_addr: Some(pos(0, 0x8000_0104)),
            },
            source_reg: 5,
        }
    );
    assert_eq!(vm.gpr_value(4), GprValue::Unknown);

    // a float load reports the access but clobbers no integer register
    vm.gpr[3] = Gpr { value: GprValue::Constant(0x8000_3000), hi_addr: None, lo_addr: None };
    vm.gpr[1] = Gpr { value: GprValue::Constant(0x1111), hi_addr: None, lo_addr: None };
    let r = vm.step(&obj, pos(0, 0x8000_0108), &Ins::new(0xc8230000)); // lfd f1, 0(r3)
    assert_eq!(
        r,
        StepResult::LoadStore {
            address: RelocationTarget::Address(pos(0, 0x8000_3000)),
            source: Gpr { value: GprValue::Constant(0x8000_3000), hi_addr: None, lo_addr: None },
            source_reg: 3,
        }
    );
    assert_eq!(vm.gpr_value(1), GprValue::Constant(0x1111));

    // a load whose base does not resolve still clobbers its destination
    let mut vm = VM::new();
    vm.gpr[9] = Gpr { value: GprValue::Constant(0x9000_0000), hi_addr: None, lo_addr: None };
    vm.gpr[8] = Gpr { value: GprValue::Constant(5), hi_addr: None, lo_addr: None };
    // lwz r8, 0(r9)
    let r = vm.step(&obj, pos(0, 0x8000_010c), &Ins::new(0x81090000));
    assert_eq!(r, StepResult::Continue);
    assert_eq!(vm.gpr_value(8), GprValue::Unknown);
}

#[test]
fn unmodeled_opcodes_clobber_their_definitions() {
    let obj = mk_obj(ObjKind::Executable, vec![]);
    let mut vm = VM::new();
    vm.gpr[3] = Gpr { value: GprValue::Constant(1), hi_addr: None, lo_addr: None };
    vm.gpr[4] = Gpr { value: GprValue::Constant(2), hi_addr: None, lo_addr: None };
    // mulli r3, r4, 5 is not modeled: r3 is defined, so it becomes unknown
    assert_eq!(vm.step(&obj, pos(0, 0x8000_0100), &Ins::new(0x1c640005)), StepResult::Continue);
    assert_eq!(vm.gpr_value(3), GprValue::Unknown);
    assert_eq!(vm.gpr_value(4), GprValue::Constant(2));
}

#[test]
fn control_flow_edges() {
    let obj = mk_obj(ObjKind::Executable, vec![]);
    let mut vm = VM::new();
    // an illegal word stops the trace
    assert_eq!(vm.step(&obj, pos(0, 0x8000_0100), &Ins::new(0x00000000)), StepResult::Illegal);
    // rfi ends the trace with an unknown target
    assert_eq!(
        vm.step(&obj, pos(0, 0x8000_0100), &Ins::new(0x4c000064)),
        StepResult::Jump(BranchTarget::Unknown)
    );
    // bla with no real target is glue code: unknown jump
    assert_eq!(
        vm.step(&obj, pos(0, 0x8000_0100), &Ins::new(0x48000003)),
        StepResult::Jump(BranchTarget::Unknown)
    );
    // blr returns
    assert_eq!(
        vm.step(&obj, pos(0, 0x8000_0100), &Ins::new(0x4e800020)),
        StepResult::Jump(BranchTarget::Return)
    );
    // bctr with an unknown CTR cannot be resolved
    assert_eq!(
        vm.step(&obj, pos(0, 0x8000_0100), &Ins::new(0x4e800420)),
        StepResult::Jump(BranchTarget::Unknown)
    );
    // bctr with a constant CTR resolves through the section table
    vm.ctr = GprValue::Constant(0x8070_0010);
    assert_eq!(
        vm.step(&obj, pos(0, 0x8000_0100), &Ins::new(0x4e800420)),
        StepResult::Jump(BranchTarget::Address(RelocationTarget::Address(pos(1, 0x8070_0010))))
    );
}

#[test]
fn ori_completes_low_halves() {
    let obj = mk_obj(ObjKind::Executable, vec![]);
    let mut vm = VM::new();
    // lis r4, 0x1234 (no relocation: a plain constant high half)
    assert_eq!(vm.step(&obj, pos(0, 0x8000_0100), &Ins::new(0x3c801234)), StepResult::Continue);
    assert_eq!(vm.gpr_value(4), GprValue::Constant(0x1234_0000));
    // ori r4, r4, 0x5678
    assert_eq!(vm.step(&obj, pos(0, 0x8000_0104), &Ins::new(0x60845678)), StepResult::Continue);
    assert_eq!(vm.gpr_value(4), GprValue::Constant(0x1234_5678));
    assert_eq!(vm.gpr[4].hi_addr, Some(pos(0, 0x8000_0100)));
    assert_eq!(vm.gpr[4].lo_addr, Some(pos(0, 0x8000_0104)));
    // ori over anything but a constant degrades to unknown
    let mut vm = VM::new();
    assert_eq!(vm.step(&obj, pos(0, 0x8000_0108), &Ins::new(0x60845678)), StepResult::Continue);
    assert_eq!(vm.gpr_value(4), GprValue::Unknown);
}

#[test]
fn rlwnm_needs_a_constant_rotate() {
    let obj = mk_obj(ObjKind::Executable, vec![]);
    let mut vm = VM::new();
    vm.gpr[8] = Gpr { value: GprValue::Constant(0x55), hi_addr: None, lo_addr: None };
    vm.gpr[9] = Gpr { value: GprValue::Constant(12), hi_addr: None, lo_addr: None };
    // rlwnm r0, r8, r9, 0, 31
    assert_eq!(vm.step(&obj, pos(0, 0x8000_0100), &Ins::new(0x5d00483e)), StepResult::Continue);
    assert_eq!(vm.gpr_value(0), GprValue::Constant(0x55000));
    // with an unknown rotate amount the result is unknown
    vm.gpr[9] = Gpr { value: GprValue::Unknown, hi_addr: None, lo_addr: None };
    assert_eq!(vm.step(&obj, pos(0, 0x8000_0104), &Ins::new(0x5d00483e)), StepResult::Continue);
    assert_eq!(vm.gpr_value(0), GprValue::Unknown);
}

#[test]
fn counter_branches_fork_without_refinement() {
    let obj = mk_obj(ObjKind::Executable, vec![]);
    let mut vm = VM::new();
    vm.gpr[3] = Gpr { value: GprValue::Constant(9), hi_addr: None, lo_addr: None };
    let pre = (*vm).clone();
    // bdnz -8: conditional, but neither a branch-if-true nor a
    // branch-if-false pattern, so the forks are plain deep copies
    let r = vm.step(&obj, pos(0, 0x8000_0120), &Ins::new(0x4200fff8));
    match r {
        StepResult::Branch(bs) => {
            assert_eq!(bs.len(), 2);
            assert_eq!(bs[0].target, BranchTarget::Address(pos_target(0, 0x8000_0124)));
            assert_eq!(bs[1].target, BranchTarget::Address(pos_target(0, 0x8000_0118)));
            assert_eq!(*bs[0].vm, pre);
            assert_eq!(*bs[1].vm, pre);
        }
        other => panic!("expected a branch fork, got {:?}", other),
    }
}

fn pos_target(section: usize, address: u32) -> RelocationTarget {
    RelocationTarget::Address(SectionAddress { section, address })
}

#[test]
fn equality_branches_pin_the_compared_register() {
    let obj = mk_obj(ObjKind::Executable, vec![]);
    let mut vm = VM::new();
    // cmpwi r5, 42
    assert_eq!(vm.step(&obj, pos(0, 0x8000_0100), &Ins::new(0x2c05002a)), StepResult::Continue);
    assert_eq!(vm.gpr_value(5), GprValue::ComparisonResult(0));
    // bne +8 branches if the eq bit is false: the fallthrough knows
    // r5 == 42, the taken edge knows nothing more
    let r = vm.step(&obj, pos(0, 0x8000_0104), &Ins::new(0x40820008));
    match r {
        StepResult::Branch(bs) => {
            assert_eq!(bs.len(), 2);
            assert_eq!(bs[0].vm.gpr_value(5), GprValue::Constant(42));
            assert_eq!(bs[1].vm.gpr_value(5), GprValue::Unknown);
        }
        other => panic!("expected a branch fork, got {:?}", other),
    }
}

#[test]
fn seeded_machines_hold_their_sda_bases() {
    let vm = VM::new_with_base(Some(0xdead_0000), Some(0xbeef_0000));
    assert_eq!(vm.gpr_value(2), GprValue::Constant(0xdead_0000));
    assert_eq!(vm.gpr_value(13), GprValue::Constant(0xbeef_0000));
    assert_eq!(vm.gpr_value(0), GprValue::Unknown);
    let none = VM::new_with_base(None, None);
    assert_eq!(none.gpr_value(2), GprValue::Unknown);
    let obj = ObjInfo {
        kind: ObjKind::Executable,
        sections: vec![],
        relocations: vec![],
        sda2_base: Some(0x8000_8000),
        sda_base: Some(0x8001_8000),
    };
    let vm = VM::new_from_obj(&obj);
    assert_eq!(vm.gpr_value(2), GprValue::Constant(0x8000_8000));
    assert_eq!(vm.gpr_value(13), GprValue::Constant(0x8001_8000));
}

#[test]
fn sixty_four_bit_compares_are_ignored() {
    let obj = mk_obj(ObjKind::Executable, vec![]);
    let mut vm = VM::new();
    vm.gpr[0] = Gpr { value: GprValue::Constant(3), hi_addr: None, lo_addr: None };
    let pre = (*vm).clone();
    // a compare word with the L bit set is not modeled
    let ins = Ins { code: 0x2c200003, op: Opcode::Cmpi };
    assert_eq!(vm.step(&obj, pos(0, 0x8000_0100), &ins), StepResult::Continue);
    assert_eq!(*vm, pre);
}

#[test]
fn mfspr_reads_only_the_counter() {
    let obj = mk_obj(ObjKind::Executable, vec![]);
    let mut vm = VM::new();
    vm.ctr = GprValue::Constant(0x1234);
    // mfctr r0
    assert_eq!(vm.step(&obj, pos(0, 0x8000_0100), &Ins::new(0x7c0902a6)), StepResult::Continue);
    assert_eq!(vm.gpr_value(0), GprValue::Constant(0x1234));
    // mflr r0: the link register is not modeled
    assert_eq!(vm.step(&obj, pos(0, 0x8000_0104), &Ins::new(0x7c0802a6)), StepResult::Continue);
    assert_eq!(vm.gpr_value(0), GprValue::Unknown);
}

#[test]
fn add_offsets_addresses_and_adds_constants() {
    let obj = mk_obj(ObjKind::Executable, vec![]);
    let mut vm = VM::new();
    vm.gpr[3] = Gpr { value: GprValue::Constant(10), hi_addr: None, lo_addr: None };
    vm.gpr[4] = Gpr { value: GprValue::Constant(32), hi_addr: None, lo_addr: None };
    // add r5, r3, r4
    assert_eq!(vm.step(&obj, pos(0, 0x8000_0100), &Ins::new(0x7ca32214)), StepResult::Continue);
    assert_eq!(vm.gpr_value(5), GprValue::Constant(42));
    // an address plus a constant keeps the section
    let base = pos(1, 0x8070_0000);
    vm.gpr[3] = Gpr {
        value: GprValue::Address(RelocationTarget::Address(base)),
        hi_addr: None,
        lo_addr: None,
    };
    assert_eq!(vm.step(&obj, pos(0, 0x8000_0104), &Ins::new(0x7ca32214)), StepResult::Continue);
    assert_eq!(
        vm.gpr_value(5),
        GprValue::Address(RelocationTarget::Address(pos(1, 0x8070_0020)))
    );
    // anything else degrades to unknown
    vm.gpr[3] = Gpr { value: GprValue::Unknown, hi_addr: None, lo_addr: None };
    assert_eq!(vm.step(&obj, pos(0, 0x8000_0108), &Ins::new(0x7ca32214)), StepResult::Continue);
    assert_eq!(vm.gpr_value(5), GprValue::Unknown);
}
