//! The binding catalog: a closed, static table of runtime entry points.
//!
//! Each catalog row fixes, for one runtime service, its stable external symbol
//! name and the ordered parameter and result types of its foreign signature.
//! The table is immutable: adding a service means adding a row here and a
//! matching call emitter.

use vstd::prelude::*;
use vstd::string::*;

verus! {

/// Discriminant of one runtime service. Identity of a catalog row is by this
/// discriminant; the set of variants is closed and never grows at run time.
#[derive(Clone, Copy, Debug, PartialEq, Eq, Structural)]
pub enum RuntimeBinding {
    Pedersen,
    HadesPermutation,
    EcStateTryFinalizeNz,
    EcStateAddMul,
    EcStateInit,
    EcStateAdd,
    EcPointTryNewNz,
    EcPointFromXNz,
    DictNew,
    DictGet,
    DictGasRefund,
    DictDrop,
    DictDup,
    GetGasBuiltin,
    DebugPrint,
    VtableCheatcode,
}

/// A parameter or result type of the foreign ABI: an address-sized opaque
/// pointer, a single packed boolean, or a fixed-width integer.
#[derive(Clone, Copy, Debug, PartialEq, Eq, Structural)]
pub enum AbiType {
    Pointer,
    I1,
    I32,
    I64,
}

/// Build-time capabilities, selected once at startup. The host-callback
/// escape hatch exists in the catalog only when `cheatcode` is set; with it
/// unset, no code path can reference that entry point.
#[derive(Clone, Copy, Debug, PartialEq, Eq, Structural)]
pub struct BuildCapabilities {
    pub cheatcode: bool,
}

impl BuildCapabilities {
    /// Whether this build's catalog contains the given entry point.
    pub open spec fn spec_enables(self, binding: RuntimeBinding) -> bool {
        binding != RuntimeBinding::VtableCheatcode || self.cheatcode
    }

    /// Whether this build's catalog contains the given entry point.
    pub fn enables(&self, binding: RuntimeBinding) -> (r: bool)
        ensures
            r == self.spec_enables(binding),
    {
        match binding {
            RuntimeBinding::VtableCheatcode => self.cheatcode,
            _ => true,
        }
    }
}

impl Default for BuildCapabilities {
    /// The default build enables no optional capability.
    fn default() -> (c: Self)
        ensures
            c.cheatcode == false,
    {
        BuildCapabilities { cheatcode: false }
    }
}

/// The external symbol name of a catalog row.
pub open spec fn symbol_of(binding: RuntimeBinding) -> Seq<char> {
    match binding {
        RuntimeBinding::Pedersen => "__libfunc__pedersen"@,
        RuntimeBinding::HadesPermutation => "__libfunc__hades_permutation"@,
        RuntimeBinding::EcStateTryFinalizeNz => "__libfunc__ec__ec_state_try_finalize_nz"@,
        RuntimeBinding::EcStateAddMul => "__libfunc__ec__ec_state_add_mul"@,
        RuntimeBinding::EcStateInit => "__libfunc__ec__ec_state_init"@,
        RuntimeBinding::EcStateAdd => "__libfunc__ec__ec_state_add"@,
        RuntimeBinding::EcPointTryNewNz => "__libfunc__ec__ec_point_try_new_nz"@,
        RuntimeBinding::EcPointFromXNz => "__libfunc__ec__ec_point_from_x_nz"@,
        RuntimeBinding::DictNew => "__dict_new"@,
        RuntimeBinding::DictGet => "__dict_get"@,
        RuntimeBinding::DictGasRefund => "__dict_gas_refund"@,
        RuntimeBinding::DictDrop => "__dict_drop"@,
        RuntimeBinding::DictDup => "__dict_dup"@,
        RuntimeBinding::GetGasBuiltin => "__get_costs_builtin"@,
        RuntimeBinding::DebugPrint => "__libfunc__debug__print"@,
        RuntimeBinding::VtableCheatcode => "__vtable_cheatcode"@,
    }
}

/// The ordered parameter types of a catalog row.
pub open spec fn params_of(binding: RuntimeBinding) -> Seq<AbiType> {
    match binding {
        RuntimeBinding::Pedersen => seq![AbiType::Pointer, AbiType::Pointer, AbiType::Pointer],
        RuntimeBinding::HadesPermutation => seq![
            AbiType::Pointer,
            AbiType::Pointer,
            AbiType::Pointer,
        ],
        RuntimeBinding::EcStateTryFinalizeNz => seq![AbiType::Pointer, AbiType::Pointer],
        RuntimeBinding::EcStateAddMul => seq![AbiType::Pointer, AbiType::Pointer, AbiType::Pointer],
        RuntimeBinding::EcStateInit => seq![AbiType::Pointer],
        RuntimeBinding::EcStateAdd => seq![AbiType::Pointer, AbiType::Pointer],
        RuntimeBinding::EcPointTryNewNz => seq![AbiType::Pointer],
        RuntimeBinding::EcPointFromXNz => seq![AbiType::Pointer],
        RuntimeBinding::DictNew => seq![AbiType::I64, AbiType::I64],
        RuntimeBinding::DictGet => seq![AbiType::Pointer, AbiType::Pointer, AbiType::Pointer],
        RuntimeBinding::DictGasRefund => seq![AbiType::Pointer],
        RuntimeBinding::DictDrop => seq![AbiType::Pointer, AbiType::Pointer],
        RuntimeBinding::DictDup => seq![AbiType::Pointer, AbiType::Pointer],
        RuntimeBinding::GetGasBuiltin => Seq::<AbiType>::empty(),
        RuntimeBinding::DebugPrint => seq![AbiType::I32, AbiType::Pointer, AbiType::I32],
        RuntimeBinding::VtableCheatcode => seq![AbiType::Pointer, AbiType::Pointer, AbiType::Pointer],
    }
}

/// The result types of a catalog row: zero or one value in this catalog.
pub open spec fn results_of(binding: RuntimeBinding) -> Seq<AbiType> {
    match binding {
        RuntimeBinding::Pedersen => Seq::<AbiType>::empty(),
        RuntimeBinding::HadesPermutation => Seq::<AbiType>::empty(),
        RuntimeBinding::EcStateTryFinalizeNz => seq![AbiType::I1],
        RuntimeBinding::EcStateAddMul => Seq::<AbiType>::empty(),
        RuntimeBinding::EcStateInit => Seq::<AbiType>::empty(),
        RuntimeBinding::EcStateAdd => Seq::<AbiType>::empty(),
        RuntimeBinding::EcPointTryNewNz => seq![AbiType::I1],
        RuntimeBinding::EcPointFromXNz => seq![AbiType::I1],
        RuntimeBinding::DictNew => seq![AbiType::Pointer],
        RuntimeBinding::DictGet => seq![AbiType::I32],
        RuntimeBinding::DictGasRefund => seq![AbiType::I64],
        RuntimeBinding::DictDrop => Seq::<AbiType>::empty(),
        RuntimeBinding::DictDup => seq![AbiType::Pointer],
        RuntimeBinding::GetGasBuiltin => seq![AbiType::Pointer],
        RuntimeBinding::DebugPrint => seq![AbiType::I32],
        RuntimeBinding::VtableCheatcode => Seq::<AbiType>::empty(),
    }
}

/// The external symbol name of a catalog row, as an owned string.
pub fn symbol_string(binding: RuntimeBinding) -> (s: String)
    ensures
        s@ == symbol_of(binding),
{
    match binding {
        RuntimeBinding::Pedersen => String::from_str("__libfunc__pedersen"),
        RuntimeBinding::HadesPermutation => String::from_str("__libfunc__hades_permutation"),
        RuntimeBinding::EcStateTryFinalizeNz => String::from_str(
            "__libfunc__ec__ec_state_try_finalize_nz",
        ),
        RuntimeBinding::EcStateAddMul => String::from_str("__libfunc__ec__ec_state_add_mul"),
        RuntimeBinding::EcStateInit => String::from_str("__libfunc__ec__ec_state_init"),
        RuntimeBinding::EcStateAdd => String::from_str("__libfunc__ec__ec_state_add"),
        RuntimeBinding::EcPointTryNewNz => String::from_str("__libfunc__ec__ec_point_try_new_nz"),
        RuntimeBinding::EcPointFromXNz => String::from_str("__libfunc__ec__ec_point_from_x_nz"),
        RuntimeBinding::DictNew => String::from_str("__dict_new"),
        RuntimeBinding::DictGet => String::from_str("__dict_get"),
        RuntimeBinding::DictGasRefund => String::from_str("__dict_gas_refund"),
        RuntimeBinding::DictDrop => String::from_str("__dict_drop"),
        RuntimeBinding::DictDup => String::from_str("__dict_dup"),
        RuntimeBinding::GetGasBuiltin => String::from_str("__get_costs_builtin"),
        RuntimeBinding::DebugPrint => String::from_str("__libfunc__debug__print"),
        RuntimeBinding::VtableCheatcode => String::from_str("__vtable_cheatcode"),
    }
}

/// The ordered parameter types of a catalog row, as an owned list.
pub fn catalog_params(binding: RuntimeBinding) -> (v: Vec<AbiType>)
    ensures
        v@ == params_of(binding),
{
    let v: Vec<AbiType> = match binding {
        RuntimeBinding::Pedersen => vec![AbiType::Pointer, AbiType::Pointer, AbiType::Pointer],
        RuntimeBinding::HadesPermutation => vec![
            AbiType::Pointer,
            AbiType::Pointer,
            AbiType::Pointer,
        ],
        RuntimeBinding::EcStateTryFinalizeNz => vec![AbiType::Pointer, AbiType::Pointer],
        RuntimeBinding::EcStateAddMul => vec![AbiType::Pointer, AbiType::Pointer, AbiType::Pointer],
        RuntimeBinding::EcStateInit => vec![AbiType::Pointer],
        RuntimeBinding::EcStateAdd => vec![AbiType::Pointer, AbiType::Pointer],
        RuntimeBinding::EcPointTryNewNz => vec![AbiType::Pointer],
        RuntimeBinding::EcPointFromXNz => vec![AbiType::Pointer],
        RuntimeBinding::DictNew => vec![AbiType::I64, AbiType::I64],
        RuntimeBinding::DictGet => vec![AbiType::Pointer, AbiType::Pointer, AbiType::Pointer],
        RuntimeBinding::DictGasRefund => vec![AbiType::Pointer],
        RuntimeBinding::DictDrop => vec![AbiType::Pointer, AbiType::Pointer],
        RuntimeBinding::DictDup => vec![AbiType::Pointer, AbiType::Pointer],
        RuntimeBinding::GetGasBuiltin => Vec::new(),
        RuntimeBinding::DebugPrint => vec![AbiType::I32, AbiType::Pointer, AbiType::I32],
        RuntimeBinding::VtableCheatcode => vec![AbiType::Pointer, AbiType::Pointer, AbiType::Pointer],
    };
    proof {
        assert(v@ =~= params_of(binding));
    }
    v
}

/// The result types of a catalog row, as an owned list.
pub fn catalog_results(binding: RuntimeBinding) -> (v: Vec<AbiType>)
    ensures
        v@ == results_of(binding),
{
    let v: Vec<AbiType> = match binding {
        RuntimeBinding::Pedersen => Vec::new(),
        RuntimeBinding::HadesPermutation => Vec::new(),
        RuntimeBinding::EcStateTryFinalizeNz => vec![AbiType::I1],
        RuntimeBinding::EcStateAddMul => Vec::new(),
        RuntimeBinding::EcStateInit => Vec::new(),
        RuntimeBinding::EcStateAdd => Vec::new(),
        RuntimeBinding::EcPointTryNewNz => vec![AbiType::I1],
        RuntimeBinding::EcPointFromXNz => vec![AbiType::I1],
        RuntimeBinding::DictNew => vec![AbiType::Pointer],
        RuntimeBinding::DictGet => vec![AbiType::I32],
        RuntimeBinding::DictGasRefund => vec![AbiType::I64],
        RuntimeBinding::DictDrop => Vec::new(),
        RuntimeBinding::DictDup => vec![AbiType::Pointer],
        RuntimeBinding::GetGasBuiltin => vec![AbiType::Pointer],
        RuntimeBinding::DebugPrint => vec![AbiType::I32],
        RuntimeBinding::VtableCheatcode => Vec::new(),
    };
    proof {
        assert(v@ =~= results_of(binding));
    }
    v
}

} // verus!
