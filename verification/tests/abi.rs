//! Tests of the binding catalog: the ABI table, the linkage-attribute
//! parser, and the capability gating of the optional entry point.

use runtime_bindings::catalog::{
    AbiType, BuildCapabilities, RuntimeBinding, catalog_params, catalog_results, symbol_string,
};
use runtime_bindings::ir::Linkage;
use runtime_bindings::registry::parse_linkage_attribute;

fn all_bindings() -> Vec<RuntimeBinding> {
    vec![
        RuntimeBinding::Pedersen,
        RuntimeBinding::HadesPermutation,
        RuntimeBinding::EcStateTryFinalizeNz,
        RuntimeBinding::EcStateAddMul,
        RuntimeBinding::EcStateInit,
        RuntimeBinding::EcStateAdd,
        RuntimeBinding::EcPointTryNewNz,
        RuntimeBinding::EcPointFromXNz,
        RuntimeBinding::DictNew,
        RuntimeBinding::DictGet,
        RuntimeBinding::DictGasRefund,
        RuntimeBinding::DictDrop,
        RuntimeBinding::DictDup,
        RuntimeBinding::GetGasBuiltin,
        RuntimeBinding::DebugPrint,
        RuntimeBinding::VtableCheatcode,
    ]
}

/// The expected ABI table row of each entry point: symbol, params, results.
fn expected_row(b: RuntimeBinding) -> (&'static str, Vec<AbiType>, Vec<AbiType>) {
    let p = AbiType::Pointer;
    match b {
        RuntimeBinding::DebugPrint => (
            "__libfunc__debug__print",
            vec![AbiType::I32, p, AbiType::I32],
            vec![AbiType::I32],
        ),
        RuntimeBinding::Pedersen => ("__libfunc__pedersen", vec![p, p, p], vec![]),
        RuntimeBinding::HadesPermutation => {
            ("__libfunc__hades_permutation", vec![p, p, p], vec![])
        }
        RuntimeBinding::EcPointFromXNz => {
            ("__libfunc__ec__ec_point_from_x_nz", vec![p], vec![AbiType::I1])
        }
        RuntimeBinding::EcPointTryNewNz => {
            ("__libfunc__ec__ec_point_try_new_nz", vec![p], vec![AbiType::I1])
        }
        RuntimeBinding::EcStateInit => ("__libfunc__ec__ec_state_init", vec![p], vec![]),
        RuntimeBinding::EcStateAdd => ("__libfunc__ec__ec_state_add", vec![p, p], vec![]),
        RuntimeBinding::EcStateAddMul => {
            ("__libfunc__ec__ec_state_add_mul", vec![p, p, p], vec![])
        }
        RuntimeBinding::EcStateTryFinalizeNz => (
            "__libfunc__ec__ec_state_try_finalize_nz",
            vec![p, p],
            vec![AbiType::I1],
        ),
        RuntimeBinding::DictNew => ("__dict_new", vec![AbiType::I64, AbiType::I64], vec![p]),
        RuntimeBinding::DictGet => ("__dict_get", vec![p, p, p], vec![AbiType::I32]),
        RuntimeBinding::DictGasRefund => ("__dict_gas_refund", vec![p], vec![AbiType::I64]),
        RuntimeBinding::DictDrop => ("__dict_drop", vec![p, p], vec![]),
        RuntimeBinding::DictDup => ("__dict_dup", vec![p, p], vec![p]),
        RuntimeBinding::GetGasBuiltin => ("__get_costs_builtin", vec![], vec![p]),
        RuntimeBinding::VtableCheatcode => ("__vtable_cheatcode", vec![p, p, p], vec![]),
    }
}

#[test]
fn abi_table_matches_exactly() {
    for b in all_bindings() {
        let (symbol, params, results) = expected_row(b);
        assert_eq!(symbol_string(b), symbol);
        assert_eq!(catalog_params(b), params);
        assert_eq!(catalog_results(b), results);
    }
}

#[test]
fn abi_symbols_are_distinct() {
    let bindings = all_bindings();
    for (i, a) in bindings.iter().enumerate() {
        for b in bindings.iter().skip(i + 1) {
            assert_ne!(symbol_string(*a), symbol_string(*b));
        }
    }
}

#[test]
fn linkage_attribute_accepts_the_external_literal() {
    assert_eq!(parse_linkage_attribute("#llvm.linkage<external>"), Some(Linkage::External));
}

#[test]
fn linkage_attribute_rejects_other_text() {
    assert_eq!(parse_linkage_attribute(""), None);
    assert_eq!(parse_linkage_attribute("#llvm.linkage<internal>"), None);
    assert_eq!(parse_linkage_attribute("#llvm.linkage<external"), None);
    assert_eq!(parse_linkage_attribute("llvm.linkage<external>"), None);
    assert_eq!(parse_linkage_attribute("#llvm.linkage<external>x"), None);
}

#[test]
fn default_capabilities_disable_the_host_callback() {
    let caps = BuildCapabilities::default();
    assert!(!caps.cheatcode);
    assert!(!caps.enables(RuntimeBinding::VtableCheatcode));
    assert!(caps.enables(RuntimeBinding::Pedersen));
    assert!(caps.enables(RuntimeBinding::DictNew));
}

#[test]
fn cheatcode_capability_enables_the_host_callback() {
    let caps = BuildCapabilities { cheatcode: true };
    assert!(caps.enables(RuntimeBinding::VtableCheatcode));
}
