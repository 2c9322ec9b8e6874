//! End-to-end scenarios over the fresh machine and an executable object:
//! jump-table recovery, comparison refinement, register copies and call
//! forks.

use ppc_vm::ins::Ins;
use ppc_vm::obj::{ObjInfo, ObjKind, ObjSection, RelocationTarget, SectionAddress};
use ppc_vm::value::{Cr, Gpr, GprValue};
use ppc_vm::vm::{Branch, BranchTarget, StepResult, VM};

fn exec_obj() -> ObjInfo {
    ObjInfo {
        kind: ObjKind::Executable,
        sections: vec![ObjSection { address: 0x8000_0000, size: 0x60_0000 }],
        relocations: vec![],
        sda2_base: None,
        sda_base: None,
    }
}

fn at(address: u32) -> SectionAddress {
    SectionAddress { section: 0, address }
}

fn sect(address: u32) -> RelocationTarget {
    RelocationTarget::Address(SectionAddress { section: 0, address })
}

#[test]
fn jump_table_via_lwzx_and_bctr() {
    let obj = exec_obj();
    let mut vm = VM::new();
    // lis r6, -0x7fae
    assert_eq!(vm.step(&obj, at(0x803dfe28), &Ins::new(0x3cc08052)), StepResult::Continue);
    assert_eq!(vm.gpr_value(6), GprValue::Constant(0x80520000));
    assert_eq!(vm.gpr[6].hi_addr, Some(at(0x803dfe28)));
    assert_eq!(vm.gpr[6].lo_addr, None);
    // addi r6, r6, 0xe18
    assert_eq!(vm.step(&obj, at(0x803dfe30), &Ins::new(0x38c60e18)), StepResult::Continue);
    assert_eq!(vm.gpr_value(6), GprValue::Constant(0x80520e18));
    assert_eq!(vm.gpr[6].hi_addr, Some(at(0x803dfe28)));
    assert_eq!(vm.gpr[6].lo_addr, Some(at(0x803dfe30)));
    // rlwinm r0, r8, 12, 27, 29
    assert_eq!(vm.step(&obj, at(0x803dfe34), &Ins::new(0x550066fa)), StepResult::Continue);
    assert_eq!(vm.gpr_value(0), GprValue::Range { min: 0, max: 28, step: 4096 });
    // lwzx r12, r6, r0
    assert_eq!(vm.step(&obj, at(0x803dfe3c), &Ins::new(0x7d86002e)), StepResult::Continue);
    assert_eq!(
        vm.gpr_value(12),
        GprValue::LoadIndexed { address: sect(0x80520e18), max_offset: Some(28) }
    );
    // mtspr CTR, r12
    assert_eq!(vm.step(&obj, at(0x803dfe4c), &Ins::new(0x7d8903a6)), StepResult::Continue);
    assert_eq!(
        vm.ctr_value(),
        GprValue::LoadIndexed { address: sect(0x80520e18), max_offset: Some(28) }
    );
    // bctr
    assert_eq!(
        vm.step(&obj, at(0x803dfe50), &Ins::new(0x4e800420)),
        StepResult::Jump(BranchTarget::JumpTable { address: sect(0x80520e18), size: Some(32) })
    );
}

#[test]
fn jump_table_with_stride_two() {
    let obj = exec_obj();
    let mut vm = VM::new();
    // lis r4, -0x7fa9
    assert_eq!(vm.step(&obj, at(0x80465320), &Ins::new(0x3c808057)), StepResult::Continue);
    // rlwinm r0, r3, 1, 25, 29
    assert_eq!(vm.step(&obj, at(0x80465324), &Ins::new(0x54600e7a)), StepResult::Continue);
    assert_eq!(vm.gpr_value(0), GprValue::Range { min: 0, max: 124, step: 2 });
    // addi r4, r4, 0xf70
    assert_eq!(vm.step(&obj, at(0x80465328), &Ins::new(0x38840f70)), StepResult::Continue);
    assert_eq!(vm.gpr_value(4), GprValue::Constant(0x80570f70));
    // lwzx r12, r4, r0
    assert_eq!(vm.step(&obj, at(0x80465330), &Ins::new(0x7d84002e)), StepResult::Continue);
    assert_eq!(
        vm.gpr_value(12),
        GprValue::LoadIndexed { address: sect(0x80570f70), max_offset: Some(124) }
    );
    // mtspr CTR, r12
    assert_eq!(vm.step(&obj, at(0x80465340), &Ins::new(0x7d8903a6)), StepResult::Continue);
    // bctr
    assert_eq!(
        vm.step(&obj, at(0x80465344), &Ins::new(0x4e800420)),
        StepResult::Jump(BranchTarget::JumpTable { address: sect(0x80570f70), size: Some(128) })
    );
}

#[test]
fn compare_then_branch_refinement() {
    let obj = exec_obj();
    let mut vm = VM::new();
    // cmplwi r0, 0x127
    assert_eq!(vm.step(&obj, at(0x800ed458), &Ins::new(0x28000127)), StepResult::Continue);
    assert_eq!(vm.gpr_value(0), GprValue::ComparisonResult(0));
    assert_eq!(
        vm.cr[0],
        Cr { left: GprValue::Unknown, right: GprValue::Constant(295), signed: false }
    );

    // When the branch is not taken, r0 <= 295; when taken, r0 > 295
    let mut false_vm = (*vm).clone();
    false_vm.gpr[0] = Gpr {
        value: GprValue::Range { min: 0, max: 295, step: 1 },
        hi_addr: None,
        lo_addr: None,
    };
    let mut true_vm = (*vm).clone();
    true_vm.gpr[0] = Gpr {
        value: GprValue::Range { min: 296, max: u32::MAX, step: 1 },
        hi_addr: None,
        lo_addr: None,
    };
    // bgt 0x60bc
    assert_eq!(
        vm.step(&obj, at(0x800ed45c), &Ins::new(0x418160bc)),
        StepResult::Branch(vec![
            Branch {
                target: BranchTarget::Address(sect(0x800ed460)),
                link: false,
                vm: Box::new(false_vm.clone()),
            },
            Branch { target: BranchTarget::Address(sect(0x800f3518)), link: false, vm: Box::new(true_vm) },
        ])
    );

    // take the not-taken edge: the refined range drives a jump table
    let mut vm = Box::new(false_vm);
    // lis r3, -0x7fad
    assert_eq!(vm.step(&obj, at(0x800ed460), &Ins::new(0x3c608053)), StepResult::Continue);
    // rlwinm r0, r0, 2, 0, 29: the range is scaled to a word offset
    assert_eq!(vm.step(&obj, at(0x800ed464), &Ins::new(0x5400103a)), StepResult::Continue);
    assert_eq!(vm.gpr_value(0), GprValue::Range { min: 0, max: 1180, step: 4 });
    // subi r3, r3, 0x1094
    assert_eq!(vm.step(&obj, at(0x800ed468), &Ins::new(0x3863ef6c)), StepResult::Continue);
    assert_eq!(vm.gpr_value(3), GprValue::Constant(0x8052ef6c));
    // lwzx r3, r3, r0
    assert_eq!(vm.step(&obj, at(0x800ed46c), &Ins::new(0x7c63002e)), StepResult::Continue);
    assert_eq!(
        vm.gpr_value(3),
        GprValue::LoadIndexed { address: sect(0x8052ef6c), max_offset: Some(1180) }
    );
    // mtspr CTR, r3
    assert_eq!(vm.step(&obj, at(0x800ed470), &Ins::new(0x7c6903a6)), StepResult::Continue);
    // bctr
    assert_eq!(
        vm.step(&obj, at(0x800ed474), &Ins::new(0x4e800420)),
        StepResult::Jump(BranchTarget::JumpTable { address: sect(0x8052ef6c), size: Some(1184) })
    );
}

#[test]
fn register_copy_keeps_audit_addresses() {
    let obj = exec_obj();
    let mut vm = VM::new();
    // lis r6, -0x7fae
    assert_eq!(vm.step(&obj, at(0x803dfe28), &Ins::new(0x3cc08052)), StepResult::Continue);
    // or r5, r6, r6 (mr r5, r6)
    assert_eq!(vm.step(&obj, at(0x803dfe2c), &Ins::new(0x7cc53378)), StepResult::Continue);
    assert_eq!(vm.gpr[5], vm.gpr[6]);
    assert_eq!(vm.gpr[5].hi_addr, Some(at(0x803dfe28)));
}

#[test]
fn call_forks_use_the_two_cloning_disciplines() {
    let obj = exec_obj();
    let mut vm = VM::new_with_base(Some(0x80001000), Some(0x80002000));
    vm.gpr[1] = Gpr {
        value: GprValue::Constant(0x8050_0000),
        hi_addr: Some(at(0x80464ff0)),
        lo_addr: Some(at(0x80464ff4)),
    };
    vm.gpr[14] = Gpr {
        value: GprValue::Constant(0x1234),
        hi_addr: Some(at(0x80465000)),
        lo_addr: Some(at(0x80465004)),
    };
    vm.gpr[3] = Gpr { value: GprValue::Constant(42), hi_addr: None, lo_addr: None };
    let pre = (*vm).clone();
    // bl +0x100
    let result = vm.step(&obj, at(0x80465320), &Ins::new(0x48000101));
    match result {
        StepResult::Branch(bs) => {
            assert_eq!(bs.len(), 2);
            assert_eq!(bs[0].target, BranchTarget::Address(sect(0x80465324)));
            assert!(!bs[0].link);
            assert_eq!(bs[0].vm, pre.clone_for_return());
            assert_eq!(bs[1].target, BranchTarget::Address(sect(0x80465420)));
            assert!(bs[1].link);
            assert_eq!(bs[1].vm, pre.clone_for_link());
            // the call fork forgets everything but the SDA bases
            assert_eq!(bs[1].vm.gpr_value(3), GprValue::Unknown);
            assert_eq!(bs[1].vm.gpr_value(2), GprValue::Constant(0x80001000));
            assert_eq!(bs[1].vm.gpr_value(13), GprValue::Constant(0x80002000));
            // the fallthrough fork keeps the dedicated and non-volatile
            // registers whole, audit addresses included
            assert_eq!(bs[0].vm.gpr[14], pre.gpr[14]);
            assert_eq!(bs[0].vm.gpr[1], pre.gpr[1]);
            assert_eq!(bs[0].vm.gpr[1].hi_addr, Some(at(0x80464ff0)));
            assert_eq!(bs[0].vm.gpr_value(1), GprValue::Constant(0x8050_0000));
            assert_eq!(bs[0].vm.gpr_value(3), GprValue::Unknown);
        }
        other => panic!("expected a branch fork, got {:?}", other),
    }
}

#[test]
fn indirect_call_is_not_a_jump_table() {
    let obj = exec_obj();
    let mut vm = VM::new();
    vm.ctr = GprValue::LoadIndexed { address: sect(0x80520e18), max_offset: Some(28) };
    // bctrl
    let result = vm.step(&obj, at(0x803dfe50), &Ins::new(0x4e800421));
    match result {
        StepResult::Branch(bs) => {
            assert_eq!(bs.len(), 2);
            assert_eq!(bs[0].target, BranchTarget::Address(sect(0x803dfe54)));
            assert!(!bs[0].link);
            assert_eq!(bs[1].target, BranchTarget::Unknown);
            assert!(bs[1].link);
        }
        other => panic!("expected a call fork, got {:?}", other),
    }
}

#[test]
fn step_is_pure_on_clones() {
    let obj = exec_obj();
    let mut vm = VM::new();
    vm.gpr[8] = Gpr { value: GprValue::Constant(0x55), hi_addr: None, lo_addr: None };
    let mut a = vm.clone_all();
    let mut b = vm.clone_all();
    let ins = Ins::new(0x550066fa); // rlwinm r0, r8, 12, 27, 29
    let ra = a.step(&obj, at(0x803dfe34), &ins);
    let rb = b.step(&obj, at(0x803dfe34), &ins);
    assert_eq!(ra, rb);
    assert_eq!(a, b);
}

#[test]
fn branch_forks_are_isolated() {
    let obj = exec_obj();
    let mut vm = VM::new();
    assert_eq!(vm.step(&obj, at(0x800ed458), &Ins::new(0x28000127)), StepResult::Continue);
    let pre = (*vm).clone();
    // bgt 0x60bc
    let result = vm.step(&obj, at(0x800ed45c), &Ins::new(0x418160bc));
    match result {
        StepResult::Branch(mut bs) => {
            let snapshot = bs[1].vm.clone();
            // mutating one fork's machine touches neither the other fork
            // nor the caller's machine
            bs[0].vm.gpr[7] = Gpr {
                value: GprValue::Constant(0xdead),
                hi_addr: None,
                lo_addr: None,
            };
            assert_eq!(bs[1].vm, snapshot);
            assert_eq!(*vm, pre);
            assert_eq!(pre.gpr_value(7), GprValue::Unknown);
        }
        other => panic!("expected a branch fork, got {:?}", other),
    }
}
