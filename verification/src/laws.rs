//! The guarantees of this layer, stated and proved over the specification
//! model of the registry, the unit and the blocks.

use vstd::prelude::*;
use crate::catalog::{RuntimeBinding, params_of, results_of, symbol_of};
use crate::ir::{
    Block, FuncDeclaration, Instruction, IrModule, Location, Value, call_count, decl_count,
    is_call, valid_decl,
};
use crate::registry::{RuntimeBindingsMeta, declare_step, unit_consistent};

verus! {

/// A declaration count of zero means no index holds that entry point, and
/// conversely.
proof fn lemma_decl_count_zero(decls: Seq<FuncDeclaration>, binding: RuntimeBinding)
    ensures
        decl_count(decls, binding) >= 0,
        decl_count(decls, binding) == 0 <==> forall|i: int|
            0 <= i < decls.len() ==> decls[i].binding != binding,
    decreases decls.len(),
{
    if decls.len() > 0 {
        lemma_decl_count_zero(decls.drop_last(), binding);
        assert forall|i: int| 0 <= i < decls.len() - 1 implies decls.drop_last()[i]
            == decls[i] by {}
        assert(decls.last() == decls[decls.len() - 1]);
    }
}

/// A declaration count of one means exactly one index holds that entry
/// point.
proof fn lemma_decl_count_one(decls: Seq<FuncDeclaration>, binding: RuntimeBinding)
    requires
        decl_count(decls, binding) == 1,
    ensures
        exists|i: int| 0 <= i < decls.len() && #[trigger] decls[i].binding == binding,
        forall|i: int, j: int|
            0 <= i < decls.len() && 0 <= j < decls.len() && #[trigger] decls[i].binding == binding
                && #[trigger] decls[j].binding == binding ==> i == j,
    decreases decls.len(),
{
    assert(decls.len() > 0);
    assert forall|i: int| 0 <= i < decls.len() - 1 implies decls.drop_last()[i] == decls[i] by {}
    if decls.last().binding == binding {
        assert(decl_count(decls.drop_last(), binding) == 0);
        lemma_decl_count_zero(decls.drop_last(), binding);
        assert(decls[decls.len() - 1].binding == binding);
    } else {
        assert(decl_count(decls.drop_last(), binding) == 1);
        lemma_decl_count_one(decls.drop_last(), binding);
        let w = choose|i: int|
            0 <= i < decls.drop_last().len() && #[trigger] decls.drop_last()[i].binding == binding;
        assert(decls[w].binding == binding);
        assert(decls[decls.len() - 1].binding != binding);
    }
}

/// What one call-emitter invocation for `binding` does to its unit: the
/// registry/unit pair takes one `declare_step`, and the block gains exactly
/// one call instruction referencing `binding`. Every call emitter ensures
/// both, so any run of one emitter is a chain of these steps.
pub open spec fn emitter_step(
    binding: RuntimeBinding,
    meta0: RuntimeBindingsMeta,
    unit0: IrModule,
    block0: Block,
    meta1: RuntimeBindingsMeta,
    unit1: IrModule,
    block1: Block,
) -> bool {
    &&& declare_step(binding, meta0, unit0, meta1, unit1)
    &&& call_count(block1.instructions@, binding) == call_count(block0.instructions@, binding) + 1
}

/// Idempotent declaration: invoking the same call emitter any number of
/// times (at least once) against one registry, starting from a consistent
/// unit that does not yet declare the entry, leaves exactly one declaration
/// of that entry in the unit and exactly that many new call instructions
/// referencing it in the block.
pub proof fn lemma_idempotent_declaration(
    binding: RuntimeBinding,
    metas: Seq<RuntimeBindingsMeta>,
    units: Seq<IrModule>,
    blocks: Seq<Block>,
    n: int,
)
    requires
        n >= 1,
        metas.len() == n + 1,
        units.len() == n + 1,
        blocks.len() == n + 1,
        unit_consistent(metas[0], units[0]),
        !metas[0].is_declared(binding),
        forall|i: int|
            0 <= i < n ==> #[trigger] emitter_step(
                binding,
                metas[i],
                units[i],
                blocks[i],
                metas[i + 1],
                units[i + 1],
                blocks[i + 1],
            ),
    ensures
        metas[n].is_declared(binding),
        decl_count(units[n].declarations@, binding) == 1,
        call_count(blocks[n].instructions@, binding) == call_count(blocks[0].instructions@, binding)
            + n,
    decreases n,
{
    if n == 1 {
        let i: int = 0;
        assert(emitter_step(
            binding,
            metas[i],
            units[i],
            blocks[i],
            metas[i + 1],
            units[i + 1],
            blocks[i + 1],
        ));
        assert(decl_count(units[0].declarations@, binding) == 0);
        assert(units[1].declarations@.len() > 0);
        assert(decl_count(units[1].declarations@, binding) == decl_count(
            units[1].declarations@.drop_last(),
            binding,
        ) + 1);
    } else {
        let m = n - 1;
        assert forall|i: int| 0 <= i < m implies #[trigger] emitter_step(
            binding,
            metas.take(n)[i],
            units.take(n)[i],
            blocks.take(n)[i],
            metas.take(n)[i + 1],
            units.take(n)[i + 1],
            blocks.take(n)[i + 1],
        ) by {
            assert(emitter_step(
                binding,
                metas[i],
                units[i],
                blocks[i],
                metas[i + 1],
                units[i + 1],
                blocks[i + 1],
            ));
        }
        lemma_idempotent_declaration(binding, metas.take(n), units.take(n), blocks.take(n), m);
        assert(metas.take(n)[m] == metas[m]);
        assert(units.take(n)[m] == units[m]);
        assert(blocks.take(n)[m] == blocks[m]);
        assert(blocks.take(n)[0] == blocks[0]);
        assert(emitter_step(
            binding,
            metas[m],
            units[m],
            blocks[m],
            metas[m + 1],
            units[m + 1],
            blocks[m + 1],
        ));
        assert(m + 1 == n);
        assert(units[n].declarations@ == units[m].declarations@);
    }
}

/// Registry isolation: a declaration step against one registry declares the
/// entry in that registry alone. An independent registry is no part of the
/// step — each emitter mutates only the registry it is invoked on — so the
/// entry stays undeclared there.
pub proof fn lemma_registry_isolation(
    binding: RuntimeBinding,
    meta0: RuntimeBindingsMeta,
    unit0: IrModule,
    meta1: RuntimeBindingsMeta,
    unit1: IrModule,
    other: RuntimeBindingsMeta,
)
    requires
        declare_step(binding, meta0, unit0, meta1, unit1),
        !other.is_declared(binding),
    ensures
        meta1.is_declared(binding),
        !other.is_declared(binding),
{
    assert(meta1.is_declared(binding));
}

/// Every call instruction referencing a declared service references that
/// service's single declaration: a consistent unit holds exactly one
/// declaration of the entry point, and the symbol the call carries is
/// exactly that declaration's symbol.
pub proof fn lemma_call_references_single_declaration(
    meta: RuntimeBindingsMeta,
    module: IrModule,
    binding: RuntimeBinding,
    inst: Instruction,
    args: Seq<Value>,
    result: Option<Value>,
    location: Location,
)
    requires
        unit_consistent(meta, module),
        meta.is_declared(binding),
        is_call(inst, binding, args, result, location),
    ensures
        exists|i: int|
            0 <= i < module.declarations@.len() && #[trigger] module.declarations@[i].binding
                == binding,
        forall|i: int|
            0 <= i < module.declarations@.len() && #[trigger] module.declarations@[i].binding
                == binding ==> module.declarations@[i].symbol@ == symbol_of(binding),
        forall|i: int, j: int|
            0 <= i < module.declarations@.len() && 0 <= j < module.declarations@.len()
                && #[trigger] module.declarations@[i].binding == binding
                && #[trigger] module.declarations@[j].binding == binding ==> i == j,
{
    assert(decl_count(module.declarations@, binding) == 1);
    lemma_decl_count_one(module.declarations@, binding);
}

/// ABI fidelity: in a consistent unit, every declaration present is exactly
/// the catalog row of its entry point — the symbol name and the ordered
/// parameter and result type lists as the ABI table fixes them, with
/// private visibility and external linkage.
pub proof fn lemma_abi_fidelity(meta: RuntimeBindingsMeta, module: IrModule, i: int)
    requires
        unit_consistent(meta, module),
        0 <= i < module.declarations@.len(),
    ensures
        valid_decl(module.declarations@[i]),
        module.declarations@[i].symbol@ == symbol_of(module.declarations@[i].binding),
        module.declarations@[i].params@ == params_of(module.declarations@[i].binding),
        module.declarations@[i].results@ == results_of(module.declarations@[i].binding),
{
}

} // verus!
