//! The declaration registry: a per-unit, append-only record of which catalog
//! entries have already been materialized as a forward declaration.
//!
//! One registry exists per compilation unit, created empty when lowering of
//! the unit starts. Membership is a bitset indexed by the closed discriminant
//! range of the catalog. The single operation, `ensure_declared`, appends the
//! entry's declaration to the unit exactly on the first request and reports
//! whether it did.

use vstd::prelude::*;
use vstd::string::*;
use crate::catalog::{BuildCapabilities, RuntimeBinding, catalog_params, catalog_results, symbol_string};
use crate::error::Error;
use crate::ir::{FuncDeclaration, IrModule, Linkage, Visibility, decl_count, valid_decl};

verus! {

/// The bitset position of a catalog discriminant.
pub open spec fn binding_index(binding: RuntimeBinding) -> u16 {
    match binding {
        RuntimeBinding::Pedersen => 0,
        RuntimeBinding::HadesPermutation => 1,
        RuntimeBinding::EcStateTryFinalizeNz => 2,
        RuntimeBinding::EcStateAddMul => 3,
        RuntimeBinding::EcStateInit => 4,
        RuntimeBinding::EcStateAdd => 5,
        RuntimeBinding::EcPointTryNewNz => 6,
        RuntimeBinding::EcPointFromXNz => 7,
        RuntimeBinding::DictNew => 8,
        RuntimeBinding::DictGet => 9,
        RuntimeBinding::DictGasRefund => 10,
        RuntimeBinding::DictDrop => 11,
        RuntimeBinding::DictDup => 12,
        RuntimeBinding::GetGasBuiltin => 13,
        RuntimeBinding::DebugPrint => 14,
        RuntimeBinding::VtableCheatcode => 15,
    }
}

/// The bitset position of a catalog discriminant.
fn binding_position(binding: RuntimeBinding) -> (i: u16)
    ensures
        i == binding_index(binding),
        i < 16,
{
    match binding {
        RuntimeBinding::Pedersen => 0,
        RuntimeBinding::HadesPermutation => 1,
        RuntimeBinding::EcStateTryFinalizeNz => 2,
        RuntimeBinding::EcStateAddMul => 3,
        RuntimeBinding::EcStateInit => 4,
        RuntimeBinding::EcStateAdd => 5,
        RuntimeBinding::EcPointTryNewNz => 6,
        RuntimeBinding::EcPointFromXNz => 7,
        RuntimeBinding::DictNew => 8,
        RuntimeBinding::DictGet => 9,
        RuntimeBinding::DictGasRefund => 10,
        RuntimeBinding::DictDrop => 11,
        RuntimeBinding::DictDup => 12,
        RuntimeBinding::GetGasBuiltin => 13,
        RuntimeBinding::DebugPrint => 14,
        RuntimeBinding::VtableCheatcode => 15,
    }
}

/// Distinct discriminants sit at distinct bitset positions.
proof fn lemma_binding_index_injective(a: RuntimeBinding, b: RuntimeBinding)
    requires
        binding_index(a) == binding_index(b),
    ensures
        a == b,
{
}

/// Setting one bit leaves a bit set exactly when it is the same bit or was
/// already set.
proof fn lemma_bit_insert(m: u16, i: u16, j: u16)
    requires
        i < 16,
        j < 16,
    ensures
        ((m | (1u16 << i)) & (1u16 << j) != 0) <==> (i == j || (m & (1u16 << j) != 0)),
{
    assert(((m | (1u16 << i)) & (1u16 << j) != 0) <==> (i == j || (m & (1u16 << j) != 0)))
        by (bit_vector)
        requires
            i < 16,
            j < 16,
    ;
}

/// In the empty bitset no bit is set.
proof fn lemma_bit_empty(j: u16)
    ensures
        0u16 & (1u16 << j) == 0,
{
    assert(0u16 & (1u16 << j) == 0) by (bit_vector);
}

/// Per-unit record of the catalog entries already declared in that unit,
/// together with the build capabilities selected at startup.
#[derive(Debug)]
pub struct RuntimeBindingsMeta {
    declared: u16,
    capabilities: BuildCapabilities,
}

/// A unit is consistent with its registry: each entry the registry records
/// is declared exactly once, every other entry not at all, and every
/// declaration present is the exact catalog row of its discriminant.
pub open spec fn unit_consistent(meta: RuntimeBindingsMeta, module: IrModule) -> bool {
    &&& forall|b: RuntimeBinding|
        #[trigger] decl_count(module.declarations@, b) == if meta.is_declared(b) {
            1int
        } else {
            0int
        }
    &&& forall|i: int|
        0 <= i < module.declarations@.len() ==> valid_decl(#[trigger] module.declarations@[i])
}

/// What one `ensure_declared` request for `binding` does to a registry and
/// its unit: the registry records exactly the old entries plus `binding`,
/// the capabilities stay, and the unit gains that entry's catalog declaration
/// exactly when it was not declared before.
pub open spec fn declare_step(
    binding: RuntimeBinding,
    meta0: RuntimeBindingsMeta,
    unit0: IrModule,
    meta1: RuntimeBindingsMeta,
    unit1: IrModule,
) -> bool {
    &&& meta1.spec_capabilities() == meta0.spec_capabilities()
    &&& forall|b: RuntimeBinding|
        #[trigger] meta1.is_declared(b) <==> (meta0.is_declared(b) || b == binding)
    &&& (meta0.is_declared(binding) ==> unit1.declarations@ == unit0.declarations@)
    &&& (!meta0.is_declared(binding) ==> {
        &&& unit1.declarations@.len() == unit0.declarations@.len() + 1
        &&& unit1.declarations@.drop_last() == unit0.declarations@
        &&& valid_decl(unit1.declarations@.last())
        &&& unit1.declarations@.last().binding == binding
    })
}

impl RuntimeBindingsMeta {
    /// Whether the unit owning this registry already declares the entry.
    pub closed spec fn is_declared(self, binding: RuntimeBinding) -> bool {
        self.declared & (1u16 << binding_index(binding)) != 0
    }

    /// The build capabilities this registry was created with.
    pub closed spec fn spec_capabilities(self) -> BuildCapabilities {
        self.capabilities
    }

    /// Whether this build's catalog contains the given entry point.
    pub open spec fn enables(self, binding: RuntimeBinding) -> bool {
        self.spec_capabilities().spec_enables(binding)
    }

    /// A fresh registry for one compilation unit: nothing declared yet.
    pub fn new(capabilities: BuildCapabilities) -> (m: RuntimeBindingsMeta)
        ensures
            m.spec_capabilities() == capabilities,
            forall|b: RuntimeBinding| !m.is_declared(b),
    {
        let m = RuntimeBindingsMeta { declared: 0, capabilities };
        proof {
            assert forall|b: RuntimeBinding| !m.is_declared(b) by {
                lemma_bit_empty(binding_index(b));
            }
        }
        m
    }

    /// The build capabilities this registry was created with.
    pub fn capabilities(&self) -> (c: BuildCapabilities)
        ensures
            c == self.spec_capabilities(),
    {
        self.capabilities
    }

    /// Whether the unit owning this registry already declares the entry.
    pub fn has_declared(&self, binding: RuntimeBinding) -> (r: bool)
        ensures
            r == self.is_declared(binding),
    {
        let i = binding_position(binding);
        self.declared & (1u16 << i) != 0
    }

    /// Record the entry and, on the first request in this unit, append its
    /// forward declaration — name, signature and linkage attributes exactly
    /// as the catalog fixes them. Reports whether the declaration was newly
    /// appended. The attribute literal this builds from is fixed, so the
    /// parse failure is proved absent.
    pub fn ensure_declared(&mut self, module: &mut IrModule, binding: RuntimeBinding) -> (r:
        Result<bool, Error>)
        requires
            old(self).enables(binding),
            unit_consistent(*old(self), *old(module)),
        ensures
            r == Ok::<bool, Error>(!old(self).is_declared(binding)),
            declare_step(binding, *old(self), *old(module), *final(self), *final(module)),
            unit_consistent(*final(self), *final(module)),
    {
        if self.has_declared(binding) {
            return Ok(false);
        }
        let linkage = match parse_linkage_attribute("#llvm.linkage<external>") {
            Some(l) => l,
            None => {
                return Err(Error::ParseAttributeError);
            },
        };
        let decl = FuncDeclaration {
            binding,
            symbol: symbol_string(binding),
            params: catalog_params(binding),
            results: catalog_results(binding),
            visibility: Visibility::Private,
            linkage,
        };
        module.declarations.push(decl);
        let i = binding_position(binding);
        self.declared = self.declared | (1u16 << i);
        proof {
            assert forall|b: RuntimeBinding|
                #[trigger] self.is_declared(b) <==> (old(self).is_declared(b) || b == binding) by {
                lemma_bit_insert(old(self).declared, binding_index(binding), binding_index(b));
                if binding_index(b) == binding_index(binding) {
                    lemma_binding_index_injective(b, binding);
                }
            }
            assert(module.declarations@.drop_last() =~= old(module).declarations@);
            assert forall|b: RuntimeBinding|
                #[trigger] decl_count(module.declarations@, b) == if self.is_declared(b) {
                    1int
                } else {
                    0int
                } by {
                assert(decl_count(module.declarations@, b) == decl_count(
                    old(module).declarations@,
                    b,
                ) + if b == binding {
                    1int
                } else {
                    0int
                });
            }
        }
        Ok(true)
    }
}

/// A registry with nothing declared is consistent with a unit holding no
/// declarations: this is the state in which lowering of a unit starts.
pub proof fn lemma_fresh_unit_consistent(meta: RuntimeBindingsMeta, module: IrModule)
    requires
        forall|b: RuntimeBinding| !meta.is_declared(b),
        module.declarations@.len() == 0,
    ensures
        unit_consistent(meta, module),
{
    assert forall|b: RuntimeBinding| #[trigger] decl_count(module.declarations@, b) == 0 by {
        assert(decl_count(module.declarations@, b) == 0);
    }
}

impl Default for RuntimeBindingsMeta {
    /// A fresh registry with the default build capabilities: nothing
    /// declared, no optional capability enabled.
    fn default() -> (m: Self)
        ensures
            m.spec_capabilities() == (BuildCapabilities { cheatcode: false }),
            forall|b: RuntimeBinding| !m.is_declared(b),
    {
        RuntimeBindingsMeta::new(BuildCapabilities::default())
    }
}

/// Parse the textual form of the linkage attribute every declaration
/// carries. Exactly the external-linkage literal is accepted.
pub fn parse_linkage_attribute(text: &str) -> (r: Option<Linkage>)
    ensures
        r == Some(Linkage::External) <==> text@ == "#llvm.linkage<external>"@,
{
    let expected = "#llvm.linkage<external>";
    let n = expected.unicode_len();
    if text.unicode_len() != n {
        proof {
            if text@ == expected@ {
                assert(text@.len() == expected@.len());
            }
        }
        return None;
    }
    let mut i: usize = 0;
    while i < n
        invariant
            i <= n,
            n == text@.len(),
            n == expected@.len(),
            expected@ == "#llvm.linkage<external>"@,
            forall|j: int| 0 <= j < i ==> text@[j] == expected@[j],
        decreases n - i,
    {
        if text.get_char(i) != expected.get_char(i) {
            proof {
                if text@ == expected@ {
                    assert(text@[i as int] == expected@[i as int]);
                }
            }
            return None;
        }
        i = i + 1;
    }
    proof {
        assert(text@ =~= expected@);
    }
    Some(Linkage::External)
}

} // verus!
