//! Tests of the declaration registry and the call emitters: idempotent
//! declaration, registry isolation, operand threading, optional-callback
//! encoding, output-slot emulation, and the fixed scenarios.

use runtime_bindings::catalog::{AbiType, BuildCapabilities, RuntimeBinding};
use runtime_bindings::emit::ElementLayout;
use runtime_bindings::ir::{Block, Instruction, IrModule, Linkage, Location, Value, Visibility};
use runtime_bindings::registry::RuntimeBindingsMeta;

fn fresh_unit() -> (RuntimeBindingsMeta, IrModule, Block) {
    (RuntimeBindingsMeta::new(BuildCapabilities { cheatcode: false }), IrModule::new(), Block::new())
}

fn val(id: usize) -> Value {
    Value { id }
}

fn loc() -> Location {
    Location { id: 7 }
}

#[test]
fn default_registry_has_nothing_declared() {
    let meta = RuntimeBindingsMeta::default();
    assert!(!meta.capabilities().cheatcode);
    assert!(!meta.has_declared(RuntimeBinding::Pedersen));
    assert!(!meta.has_declared(RuntimeBinding::DictGet));
    assert!(!meta.has_declared(RuntimeBinding::VtableCheatcode));
}

#[test]
fn idempotent_declaration_over_many_invocations() {
    let (mut meta, mut module, mut block) = fresh_unit();
    for n in 1..=5usize {
        meta.libfunc_pedersen(&mut module, &mut block, val(1), val(2), val(3), loc()).unwrap();
        assert_eq!(module.declarations_of(RuntimeBinding::Pedersen), 1);
        assert_eq!(block.calls_to(RuntimeBinding::Pedersen), n);
    }
    assert_eq!(module.declarations.len(), 1);
    assert_eq!(block.instructions.len(), 5);
}

#[test]
fn registry_isolation_between_units() {
    let (mut meta_a, mut module_a, mut block_a) = fresh_unit();
    let (meta_b, module_b, _block_b) = fresh_unit();
    meta_a
        .libfunc_hades_permutation(&mut module_a, &mut block_a, val(1), val(2), val(3), loc())
        .unwrap();
    assert!(meta_a.has_declared(RuntimeBinding::HadesPermutation));
    assert!(!meta_b.has_declared(RuntimeBinding::HadesPermutation));
    assert_eq!(module_a.declarations_of(RuntimeBinding::HadesPermutation), 1);
    assert_eq!(module_b.declarations_of(RuntimeBinding::HadesPermutation), 0);
    assert_eq!(module_b.declarations.len(), 0);
}

#[test]
fn emitted_declaration_matches_catalog() {
    let (mut meta, mut module, mut block) = fresh_unit();
    meta.libfunc_debug_print(&mut module, &mut block, val(10), val(11), val(12), loc()).unwrap();
    assert_eq!(module.declarations.len(), 1);
    let decl = &module.declarations[0];
    assert_eq!(decl.binding, RuntimeBinding::DebugPrint);
    assert_eq!(decl.symbol, "__libfunc__debug__print");
    assert_eq!(decl.params, vec![AbiType::I32, AbiType::Pointer, AbiType::I32]);
    assert_eq!(decl.results, vec![AbiType::I32]);
    assert_eq!(decl.visibility, Visibility::Private);
    assert_eq!(decl.linkage, Linkage::External);
}

#[test]
fn debug_print_returns_the_call_result() {
    let (mut meta, mut module, mut block) = fresh_unit();
    let status = meta
        .libfunc_debug_print(&mut module, &mut block, val(10), val(11), val(12), loc())
        .unwrap();
    match &block.instructions[0] {
        Instruction::Call { callee, args, result, location, .. } => {
            assert_eq!(*callee, RuntimeBinding::DebugPrint);
            assert_eq!(args, &vec![val(10), val(11), val(12)]);
            assert_eq!(*result, Some(status));
            assert_eq!(*location, loc());
        }
        other => panic!("expected a call, got {:?}", other),
    }
}

#[test]
fn dict_drop_without_callback_encodes_null() {
    let (mut meta, mut module, mut block) = fresh_unit();
    meta.dict_drop(&mut module, &mut block, val(40), None, loc()).unwrap();
    assert_eq!(block.instructions.len(), 2);
    let zero = match &block.instructions[0] {
        Instruction::ZeroPointer { result, .. } => *result,
        other => panic!("expected a zero pointer, got {:?}", other),
    };
    match &block.instructions[1] {
        Instruction::Call { callee, args, result, .. } => {
            assert_eq!(*callee, RuntimeBinding::DictDrop);
            assert_eq!(args, &vec![val(40), zero]);
            assert_eq!(*result, None);
        }
        other => panic!("expected a call, got {:?}", other),
    }
}

#[test]
fn dict_drop_with_callback_passes_it_through() {
    let (mut meta, mut module, mut block) = fresh_unit();
    meta.dict_drop(&mut module, &mut block, val(40), Some(val(41)), loc()).unwrap();
    assert_eq!(block.instructions.len(), 1);
    match &block.instructions[0] {
        Instruction::Call { callee, args, .. } => {
            assert_eq!(*callee, RuntimeBinding::DictDrop);
            assert_eq!(args, &vec![val(40), val(41)]);
        }
        other => panic!("expected a call, got {:?}", other),
    }
}

#[test]
fn dict_dup_without_callback_encodes_null() {
    let (mut meta, mut module, mut block) = fresh_unit();
    let copy = meta.dict_dup(&mut module, &mut block, val(50), None, loc()).unwrap();
    assert_eq!(block.instructions.len(), 2);
    let zero = match &block.instructions[0] {
        Instruction::ZeroPointer { result, .. } => *result,
        other => panic!("expected a zero pointer, got {:?}", other),
    };
    match &block.instructions[1] {
        Instruction::Call { callee, args, result, .. } => {
            assert_eq!(*callee, RuntimeBinding::DictDup);
            assert_eq!(args, &vec![val(50), zero]);
            assert_eq!(*result, Some(copy));
        }
        other => panic!("expected a call, got {:?}", other),
    }
}

#[test]
fn dict_dup_with_callback_passes_it_through() {
    let (mut meta, mut module, mut block) = fresh_unit();
    let copy = meta.dict_dup(&mut module, &mut block, val(50), Some(val(51)), loc()).unwrap();
    assert_eq!(block.instructions.len(), 1);
    match &block.instructions[0] {
        Instruction::Call { callee, args, result, .. } => {
            assert_eq!(*callee, RuntimeBinding::DictDup);
            assert_eq!(args, &vec![val(50), val(51)]);
            assert_eq!(*result, Some(copy));
        }
        other => panic!("expected a call, got {:?}", other),
    }
}

#[test]
fn dict_get_allocates_slot_calls_and_loads() {
    let (mut meta, mut module, mut block) = fresh_unit();
    let mut init_block = Block::new();
    let (present, value_ptr) = meta
        .dict_get(&mut module, &mut init_block, &mut block, val(60), val(61), loc())
        .unwrap();
    assert_eq!(init_block.instructions.len(), 1);
    let slot = match &init_block.instructions[0] {
        Instruction::StackSlot { ty, result, .. } => {
            assert_eq!(*ty, AbiType::Pointer);
            *result
        }
        other => panic!("expected a stack slot, got {:?}", other),
    };
    assert_eq!(block.instructions.len(), 2);
    match &block.instructions[0] {
        Instruction::Call { callee, args, result, .. } => {
            assert_eq!(*callee, RuntimeBinding::DictGet);
            assert_eq!(args, &vec![val(60), val(61), slot]);
            assert_eq!(*result, Some(present));
        }
        other => panic!("expected a call, got {:?}", other),
    }
    match &block.instructions[1] {
        Instruction::Load { ty, source, result, .. } => {
            assert_eq!(*ty, AbiType::Pointer);
            assert_eq!(*source, slot);
            assert_eq!(*result, value_ptr);
        }
        other => panic!("expected a load, got {:?}", other),
    }
}

#[test]
fn dict_gas_refund_returns_an_integer_result() {
    let (mut meta, mut module, mut block) = fresh_unit();
    let op = meta.dict_gas_refund(&mut module, &mut block, val(70), loc()).unwrap();
    assert_eq!(op.index, 0);
    match &block.instructions[0] {
        Instruction::Call { callee, args, result_types, result, .. } => {
            assert_eq!(*callee, RuntimeBinding::DictGasRefund);
            assert_eq!(args, &vec![val(70)]);
            assert_eq!(result_types, &vec![AbiType::I64]);
            assert!(result.is_some());
        }
        other => panic!("expected a call, got {:?}", other),
    }
}

#[test]
fn get_gas_builtin_takes_no_arguments() {
    let (mut meta, mut module, mut block) = fresh_unit();
    meta.get_gas_builtin(&mut module, &mut block, loc()).unwrap();
    match &block.instructions[0] {
        Instruction::Call { callee, args, result_types, result, .. } => {
            assert_eq!(*callee, RuntimeBinding::GetGasBuiltin);
            assert!(args.is_empty());
            assert_eq!(result_types, &vec![AbiType::Pointer]);
            assert!(result.is_some());
        }
        other => panic!("expected a call, got {:?}", other),
    }
}

#[test]
fn ec_emitters_each_declare_once_and_thread_operands() {
    let (mut meta, mut module, mut block) = fresh_unit();
    meta.libfunc_ec_state_init(&mut module, &mut block, val(1), loc()).unwrap();
    meta.libfunc_ec_state_add(&mut module, &mut block, val(1), val(2), loc()).unwrap();
    meta.libfunc_ec_state_add_mul(&mut module, &mut block, val(1), val(3), val(2), loc()).unwrap();
    meta.libfunc_ec_state_try_finalize_nz(&mut module, &mut block, val(4), val(1), loc()).unwrap();
    meta.libfunc_ec_point_try_new_nz(&mut module, &mut block, val(4), loc()).unwrap();
    meta.libfunc_ec_point_from_x_nz(&mut module, &mut block, val(5), loc()).unwrap();
    assert_eq!(module.declarations.len(), 6);
    assert_eq!(block.instructions.len(), 6);
    for b in [
        RuntimeBinding::EcStateInit,
        RuntimeBinding::EcStateAdd,
        RuntimeBinding::EcStateAddMul,
        RuntimeBinding::EcStateTryFinalizeNz,
        RuntimeBinding::EcPointTryNewNz,
        RuntimeBinding::EcPointFromXNz,
    ] {
        assert_eq!(module.declarations_of(b), 1);
        assert_eq!(block.calls_to(b), 1);
    }
    match &block.instructions[3] {
        Instruction::Call { callee, args, result, .. } => {
            assert_eq!(*callee, RuntimeBinding::EcStateTryFinalizeNz);
            assert_eq!(args, &vec![val(4), val(1)]);
            assert!(result.is_some());
        }
        other => panic!("expected a call, got {:?}", other),
    }
}

#[test]
fn scenario_a_two_declarations_three_calls() {
    let (mut meta, mut module, mut block) = fresh_unit();
    meta.libfunc_debug_print(&mut module, &mut block, val(1), val(2), val(3), loc()).unwrap();
    meta.libfunc_pedersen(&mut module, &mut block, val(4), val(5), val(6), loc()).unwrap();
    meta.libfunc_pedersen(&mut module, &mut block, val(7), val(8), val(9), loc()).unwrap();
    assert_eq!(module.declarations.len(), 2);
    assert_eq!(module.declarations_of(RuntimeBinding::DebugPrint), 1);
    assert_eq!(module.declarations_of(RuntimeBinding::Pedersen), 1);
    assert_eq!(block.instructions.len(), 3);
    assert_eq!(block.calls_to(RuntimeBinding::DebugPrint), 1);
    assert_eq!(block.calls_to(RuntimeBinding::Pedersen), 2);
}

#[test]
fn scenario_b_dict_new_constant_operands() {
    let (mut meta, mut module, mut block) = fresh_unit();
    let handle = meta
        .dict_new(&mut module, &mut block, loc(), ElementLayout { size: 32, align: 8 })
        .unwrap();
    assert_eq!(block.instructions.len(), 3);
    let size = match &block.instructions[0] {
        Instruction::ConstInt { ty, value, result, .. } => {
            assert_eq!(*ty, AbiType::I64);
            assert_eq!(*value, 32);
            *result
        }
        other => panic!("expected an integer constant, got {:?}", other),
    };
    let align = match &block.instructions[1] {
        Instruction::ConstInt { ty, value, result, .. } => {
            assert_eq!(*ty, AbiType::I64);
            assert_eq!(*value, 8);
            *result
        }
        other => panic!("expected an integer constant, got {:?}", other),
    };
    match &block.instructions[2] {
        Instruction::Call { callee, args, result, .. } => {
            assert_eq!(*callee, RuntimeBinding::DictNew);
            assert_eq!(args, &vec![size, align]);
            assert_eq!(*result, Some(handle));
        }
        other => panic!("expected a call, got {:?}", other),
    }
}

#[test]
fn scenario_c_host_callback_exists_only_with_the_capability() {
    // With the capability off, `vtable_cheatcode` cannot even be invoked:
    // its precondition demands the capability, so no caller can reference
    // the catalog entry. A test can watch the capability query alone.
    let disabled = RuntimeBindingsMeta::new(BuildCapabilities { cheatcode: false });
    assert!(!disabled.capabilities().enables(RuntimeBinding::VtableCheatcode));

    let mut meta = RuntimeBindingsMeta::new(BuildCapabilities { cheatcode: true });
    assert!(meta.capabilities().enables(RuntimeBinding::VtableCheatcode));
    let mut module = IrModule::new();
    let mut block = Block::new();
    meta.vtable_cheatcode(&mut module, &mut block, loc(), val(1), val(2), val(3)).unwrap();
    meta.vtable_cheatcode(&mut module, &mut block, loc(), val(4), val(5), val(6)).unwrap();
    assert_eq!(module.declarations_of(RuntimeBinding::VtableCheatcode), 1);
    assert_eq!(block.calls_to(RuntimeBinding::VtableCheatcode), 2);
    match &block.instructions[1] {
        Instruction::Call { callee, symbol, args, result, .. } => {
            assert_eq!(*callee, RuntimeBinding::VtableCheatcode);
            assert_eq!(symbol, "__vtable_cheatcode");
            assert_eq!(args, &vec![val(4), val(5), val(6)]);
            assert_eq!(*result, None);
        }
        other => panic!("expected a call, got {:?}", other),
    }
}

#[test]
fn hades_permutation_threads_all_three_state_words() {
    let (mut meta, mut module, mut block) = fresh_unit();
    let op = meta
        .libfunc_hades_permutation(&mut module, &mut block, val(21), val(22), val(23), loc())
        .unwrap();
    assert_eq!(op.index, 0);
    match &block.instructions[0] {
        Instruction::Call { callee, symbol, args, result, .. } => {
            assert_eq!(*callee, RuntimeBinding::HadesPermutation);
            assert_eq!(symbol, "__libfunc__hades_permutation");
            assert_eq!(args, &vec![val(21), val(22), val(23)]);
            assert_eq!(*result, None);
        }
        other => panic!("expected a call, got {:?}", other),
    }
}
