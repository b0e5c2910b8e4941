//! The call emitters: one public method per catalog entry.
//!
//! Each emitter guarantees, through the registry, that its entry is declared
//! exactly once in the unit, appends one call instruction against the
//! declared symbol with the caller's operands, and hands the decoded result
//! value back. Nothing here executes the runtime service: the instructions
//! are only appended to the in-memory unit, to run later as part of the
//! generated program.

use vstd::prelude::*;
use crate::adapter::callback_or_null;
use crate::catalog::{AbiType, RuntimeBinding};
use crate::error::Error;
use crate::ir::{Block, Instruction, IrModule, Location, OpRef, Value, call_count, is_call};
use crate::registry::{RuntimeBindingsMeta, declare_step, unit_consistent};

verus! {

/// Byte size and alignment of the element type a map is allocated for.
#[derive(Clone, Copy, Debug, PartialEq, Eq, Structural)]
pub struct ElementLayout {
    pub size: u64,
    pub align: u64,
}

impl RuntimeBindingsMeta {
    /// Register if necessary, then build a call of the diagnostic-output
    /// service: writes `values_len` formatted values from `values_ptr` to
    /// the stream `target_fd` names, and yields a status code.
    pub fn libfunc_debug_print(
        &mut self,
        module: &mut IrModule,
        block: &mut Block,
        target_fd: Value,
        values_ptr: Value,
        values_len: Value,
        location: Location,
    ) -> (r: Result<Value, Error>)
        requires
            unit_consistent(*old(self), *old(module)),
        ensures
            declare_step(
                RuntimeBinding::DebugPrint,
                *old(self),
                *old(module),
                *final(self),
                *final(module),
            ),
            unit_consistent(*final(self), *final(module)),
            final(block).instructions@.len() == old(block).instructions@.len() + 1,
            final(block).instructions@.drop_last() == old(block).instructions@,
            r matches Ok(v) && v.id == old(block).instructions@.len(),
            is_call(
                final(block).instructions@.last(),
                RuntimeBinding::DebugPrint,
                seq![target_fd, values_ptr, values_len],
                Some((Value { id: old(block).instructions@.len() as usize })),
                location,
            ),
            call_count(final(block).instructions@, RuntimeBinding::DebugPrint) == call_count(
                old(block).instructions@,
                RuntimeBinding::DebugPrint,
            ) + 1,
            forall|c: RuntimeBinding|
                c != RuntimeBinding::DebugPrint ==> call_count(final(block).instructions@, c)
                    == call_count(old(block).instructions@, c),
    {
        self.ensure_declared(module, RuntimeBinding::DebugPrint)?;
        let args = vec![target_fd, values_ptr, values_len];
        proof {
            assert(args@ =~= seq![target_fd, values_ptr, values_len]);
        }
        let (_op, result) = block.append_call(RuntimeBinding::DebugPrint, args, location);
        Ok(result.unwrap())
    }

    /// Register if necessary, then build a call of the pedersen hash
    /// service: three pointer operands, the compression result written
    /// through `dst_ptr`; no return value.
    pub fn libfunc_pedersen(
        &mut self,
        module: &mut IrModule,
        block: &mut Block,
        dst_ptr: Value,
        lhs_ptr: Value,
        rhs_ptr: Value,
        location: Location,
    ) -> (r: Result<OpRef, Error>)
        requires
            unit_consistent(*old(self), *old(module)),
        ensures
            declare_step(
                RuntimeBinding::Pedersen,
                *old(self),
                *old(module),
                *final(self),
                *final(module),
            ),
            unit_consistent(*final(self), *final(module)),
            final(block).instructions@.len() == old(block).instructions@.len() + 1,
            final(block).instructions@.drop_last() == old(block).instructions@,
            r matches Ok(op) && op.index == old(block).instructions@.len(),
            is_call(
                final(block).instructions@.last(),
                RuntimeBinding::Pedersen,
                seq![dst_ptr, lhs_ptr, rhs_ptr],
                None::<Value>,
                location,
            ),
            call_count(final(block).instructions@, RuntimeBinding::Pedersen) == call_count(
                old(block).instructions@,
                RuntimeBinding::Pedersen,
            ) + 1,
            forall|c: RuntimeBinding|
                c != RuntimeBinding::Pedersen ==> call_count(final(block).instructions@, c)
                    == call_count(old(block).instructions@, c),
    {
        self.ensure_declared(module, RuntimeBinding::Pedersen)?;
        let args = vec![dst_ptr, lhs_ptr, rhs_ptr];
        proof {
            assert(args@ =~= seq![dst_ptr, lhs_ptr, rhs_ptr]);
        }
        let (op, _result) = block.append_call(RuntimeBinding::Pedersen, args, location);
        Ok(op)
    }

    /// Register if necessary, then build a call of the hades-permutation
    /// service: the three state words are read and written in place through
    /// the three pointer operands; no return value.
    pub fn libfunc_hades_permutation(
        &mut self,
        module: &mut IrModule,
        block: &mut Block,
        op0_ptr: Value,
        op1_ptr: Value,
        op2_ptr: Value,
        location: Location,
    ) -> (r: Result<OpRef, Error>)
        requires
            unit_consistent(*old(self), *old(module)),
        ensures
            declare_step(
                RuntimeBinding::HadesPermutation,
                *old(self),
                *old(module),
                *final(self),
                *final(module),
            ),
            unit_consistent(*final(self), *final(module)),
            final(block).instructions@.len() == old(block).instructions@.len() + 1,
            final(block).instructions@.drop_last() == old(block).instructions@,
            r matches Ok(op) && op.index == old(block).instructions@.len(),
            is_call(
                final(block).instructions@.last(),
                RuntimeBinding::HadesPermutation,
                seq![op0_ptr, op1_ptr, op2_ptr],
                None::<Value>,
                location,
            ),
            call_count(final(block).instructions@, RuntimeBinding::HadesPermutation) == call_count(
                old(block).instructions@,
                RuntimeBinding::HadesPermutation,
            ) + 1,
            forall|c: RuntimeBinding|
                c != RuntimeBinding::HadesPermutation ==> call_count(final(block).instructions@, c)
                    == call_count(old(block).instructions@, c),
    {
        self.ensure_declared(module, RuntimeBinding::HadesPermutation)?;
        let args = vec![op0_ptr, op1_ptr, op2_ptr];
        proof {
            assert(args@ =~= seq![op0_ptr, op1_ptr, op2_ptr]);
        }
        let (op, _result) = block.append_call(RuntimeBinding::HadesPermutation, args, location);
        Ok(op)
    }

    /// Register if necessary, then build a call that derives a curve point
    /// from its x-coordinate in place, reporting success as a packed
    /// boolean.
    pub fn libfunc_ec_point_from_x_nz(
        &mut self,
        module: &mut IrModule,
        block: &mut Block,
        point_ptr: Value,
        location: Location,
    ) -> (r: Result<OpRef, Error>)
        requires
            unit_consistent(*old(self), *old(module)),
        ensures
            declare_step(
                RuntimeBinding::EcPointFromXNz,
                *old(self),
                *old(module),
                *final(self),
                *final(module),
            ),
            unit_consistent(*final(self), *final(module)),
            final(block).instructions@.len() == old(block).instructions@.len() + 1,
            final(block).instructions@.drop_last() == old(block).instructions@,
            r matches Ok(op) && op.index == old(block).instructions@.len(),
            is_call(
                final(block).instructions@.last(),
                RuntimeBinding::EcPointFromXNz,
                seq![point_ptr],
                Some((Value { id: old(block).instructions@.len() as usize })),
                location,
            ),
            call_count(final(block).instructions@, RuntimeBinding::EcPointFromXNz) == call_count(
                old(block).instructions@,
                RuntimeBinding::EcPointFromXNz,
            ) + 1,
            forall|c: RuntimeBinding|
                c != RuntimeBinding::EcPointFromXNz ==> call_count(final(block).instructions@, c)
                    == call_count(old(block).instructions@, c),
    {
        self.ensure_declared(module, RuntimeBinding::EcPointFromXNz)?;
        let args = vec![point_ptr];
        proof {
            assert(args@ =~= seq![point_ptr]);
        }
        let (op, _result) = block.append_call(RuntimeBinding::EcPointFromXNz, args, location);
        Ok(op)
    }

    /// Register if necessary, then build a call that validates a candidate
    /// curve point in place, reporting success as a packed boolean.
    pub fn libfunc_ec_point_try_new_nz(
        &mut self,
        module: &mut IrModule,
        block: &mut Block,
        point_ptr: Value,
        location: Location,
    ) -> (r: Result<OpRef, Error>)
        requires
            unit_consistent(*old(self), *old(module)),
        ensures
            declare_step(
                RuntimeBinding::EcPointTryNewNz,
                *old(self),
                *old(module),
                *final(self),
                *final(module),
            ),
            unit_consistent(*final(self), *final(module)),
            final(block).instructions@.len() == old(block).instructions@.len() + 1,
            final(block).instructions@.drop_last() == old(block).instructions@,
            r matches Ok(op) && op.index == old(block).instructions@.len(),
            is_call(
                final(block).instructions@.last(),
                RuntimeBinding::EcPointTryNewNz,
                seq![point_ptr],
                Some((Value { id: old(block).instructions@.len() as usize })),
                location,
            ),
            call_count(final(block).instructions@, RuntimeBinding::EcPointTryNewNz) == call_count(
                old(block).instructions@,
                RuntimeBinding::EcPointTryNewNz,
            ) + 1,
            forall|c: RuntimeBinding|
                c != RuntimeBinding::EcPointTryNewNz ==> call_count(final(block).instructions@, c)
                    == call_count(old(block).instructions@, c),
    {
        self.ensure_declared(module, RuntimeBinding::EcPointTryNewNz)?;
        let args = vec![point_ptr];
        proof {
            assert(args@ =~= seq![point_ptr]);
        }
        let (op, _result) = block.append_call(RuntimeBinding::EcPointTryNewNz, args, location);
        Ok(op)
    }

    /// Register if necessary, then build a call that initializes the
    /// elliptic-curve accumulator behind `state_ptr` to the identity.
    pub fn libfunc_ec_state_init(
        &mut self,
        module: &mut IrModule,
        block: &mut Block,
        state_ptr: Value,
        location: Location,
    ) -> (r: Result<OpRef, Error>)
        requires
            unit_consistent(*old(self), *old(module)),
        ensures
            declare_step(
                RuntimeBinding::EcStateInit,
                *old(self),
                *old(module),
                *final(self),
                *final(module),
            ),
            unit_consistent(*final(self), *final(module)),
            final(block).instructions@.len() == old(block).instructions@.len() + 1,
            final(block).instructions@.drop_last() == old(block).instructions@,
            r matches Ok(op) && op.index == old(block).instructions@.len(),
            is_call(
                final(block).instructions@.last(),
                RuntimeBinding::EcStateInit,
                seq![state_ptr],
                None::<Value>,
                location,
            ),
            call_count(final(block).instructions@, RuntimeBinding::EcStateInit) == call_count(
                old(block).instructions@,
                RuntimeBinding::EcStateInit,
            ) + 1,
            forall|c: RuntimeBinding|
                c != RuntimeBinding::EcStateInit ==> call_count(final(block).instructions@, c)
                    == call_count(old(block).instructions@, c),
    {
        self.ensure_declared(module, RuntimeBinding::EcStateInit)?;
        let args = vec![state_ptr];
        proof {
            assert(args@ =~= seq![state_ptr]);
        }
        let (op, _result) = block.append_call(RuntimeBinding::EcStateInit, args, location);
        Ok(op)
    }

    /// Register if necessary, then build a call that adds a point into the
    /// accumulator in place.
    pub fn libfunc_ec_state_add(
        &mut self,
        module: &mut IrModule,
        block: &mut Block,
        state_ptr: Value,
        point_ptr: Value,
        location: Location,
    ) -> (r: Result<OpRef, Error>)
        requires
            unit_consistent(*old(self), *old(module)),
        ensures
            declare_step(
                RuntimeBinding::EcStateAdd,
                *old(self),
                *old(module),
                *final(self),
                *final(module),
            ),
            unit_consistent(*final(self), *final(module)),
            final(block).instructions@.len() == old(block).instructions@.len() + 1,
            final(block).instructions@.drop_last() == old(block).instructions@,
            r matches Ok(op) && op.index == old(block).instructions@.len(),
            is_call(
                final(block).instructions@.last(),
                RuntimeBinding::EcStateAdd,
                seq![state_ptr, point_ptr],
                None::<Value>,
                location,
            ),
            call_count(final(block).instructions@, RuntimeBinding::EcStateAdd) == call_count(
                old(block).instructions@,
                RuntimeBinding::EcStateAdd,
            ) + 1,
            forall|c: RuntimeBinding|
                c != RuntimeBinding::EcStateAdd ==> call_count(final(block).instructions@, c)
                    == call_count(old(block).instructions@, c),
    {
        self.ensure_declared(module, RuntimeBinding::EcStateAdd)?;
        let args = vec![state_ptr, point_ptr];
        proof {
            assert(args@ =~= seq![state_ptr, point_ptr]);
        }
        let (op, _result) = block.append_call(RuntimeBinding::EcStateAdd, args, location);
        Ok(op)
    }

    /// Register if necessary, then build a call that adds a scalar multiple
    /// of a point into the accumulator in place.
    pub fn libfunc_ec_state_add_mul(
        &mut self,
        module: &mut IrModule,
        block: &mut Block,
        state_ptr: Value,
        scalar_ptr: Value,
        point_ptr: Value,
        location: Location,
    ) -> (r: Result<OpRef, Error>)
        requires
            unit_consistent(*old(self), *old(module)),
        ensures
            declare_step(
                RuntimeBinding::EcStateAddMul,
                *old(self),
                *old(module),
                *final(self),
                *final(module),
            ),
            unit_consistent(*final(self), *final(module)),
            final(block).instructions@.len() == old(block).instructions@.len() + 1,
            final(block).instructions@.drop_last() == old(block).instructions@,
            r matches Ok(op) && op.index == old(block).instructions@.len(),
            is_call(
                final(block).instructions@.last(),
                RuntimeBinding::EcStateAddMul,
                seq![state_ptr, scalar_ptr, point_ptr],
                None::<Value>,
                location,
            ),
            call_count(final(block).instructions@, RuntimeBinding::EcStateAddMul) == call_count(
                old(block).instructions@,
                RuntimeBinding::EcStateAddMul,
            ) + 1,
            forall|c: RuntimeBinding|
                c != RuntimeBinding::EcStateAddMul ==> call_count(final(block).instructions@, c)
                    == call_count(old(block).instructions@, c),
    {
        self.ensure_declared(module, RuntimeBinding::EcStateAddMul)?;
        let args = vec![state_ptr, scalar_ptr, point_ptr];
        proof {
            assert(args@ =~= seq![state_ptr, scalar_ptr, point_ptr]);
        }
        let (op, _result) = block.append_call(RuntimeBinding::EcStateAddMul, args, location);
        Ok(op)
    }

    /// Register if necessary, then build a call that writes the finalized
    /// accumulator sum through `point_ptr` and reports, as a packed boolean,
    /// whether that sum is a representable non-identity point.
    pub fn libfunc_ec_state_try_finalize_nz(
        &mut self,
        module: &mut IrModule,
        block: &mut Block,
        point_ptr: Value,
        state_ptr: Value,
        location: Location,
    ) -> (r: Result<OpRef, Error>)
        requires
            unit_consistent(*old(self), *old(module)),
        ensures
            declare_step(
                RuntimeBinding::EcStateTryFinalizeNz,
                *old(self),
                *old(module),
                *final(self),
                *final(module),
            ),
            unit_consistent(*final(self), *final(module)),
            final(block).instructions@.len() == old(block).instructions@.len() + 1,
            final(block).instructions@.drop_last() == old(block).instructions@,
            r matches Ok(op) && op.index == old(block).instructions@.len(),
            is_call(
                final(block).instructions@.last(),
                RuntimeBinding::EcStateTryFinalizeNz,
                seq![point_ptr, state_ptr],
                Some((Value { id: old(block).instructions@.len() as usize })),
                location,
            ),
            call_count(final(block).instructions@, RuntimeBinding::EcStateTryFinalizeNz)
                == call_count(old(block).instructions@, RuntimeBinding::EcStateTryFinalizeNz) + 1,
            forall|c: RuntimeBinding|
                c != RuntimeBinding::EcStateTryFinalizeNz ==> call_count(
                    final(block).instructions@,
                    c,
                ) == call_count(old(block).instructions@, c),
    {
        self.ensure_declared(module, RuntimeBinding::EcStateTryFinalizeNz)?;
        let args = vec![point_ptr, state_ptr];
        proof {
            assert(args@ =~= seq![point_ptr, state_ptr]);
        }
        let (op, _result) = block.append_call(RuntimeBinding::EcStateTryFinalizeNz, args, location);
        Ok(op)
    }

    /// Register if necessary, then build a call that computes the
    /// accumulated gas refund owed for a map, from its access history.
    pub fn dict_gas_refund(
        &mut self,
        module: &mut IrModule,
        block: &mut Block,
        dict_ptr: Value,
        location: Location,
    ) -> (r: Result<OpRef, Error>)
        requires
            unit_consistent(*old(self), *old(module)),
        ensures
            declare_step(
                RuntimeBinding::DictGasRefund,
                *old(self),
                *old(module),
                *final(self),
                *final(module),
            ),
            unit_consistent(*final(self), *final(module)),
            final(block).instructions@.len() == old(block).instructions@.len() + 1,
            final(block).instructions@.drop_last() == old(block).instructions@,
            r matches Ok(op) && op.index == old(block).instructions@.len(),
            is_call(
                final(block).instructions@.last(),
                RuntimeBinding::DictGasRefund,
                seq![dict_ptr],
                Some((Value { id: old(block).instructions@.len() as usize })),
                location,
            ),
            call_count(final(block).instructions@, RuntimeBinding::DictGasRefund) == call_count(
                old(block).instructions@,
                RuntimeBinding::DictGasRefund,
            ) + 1,
            forall|c: RuntimeBinding|
                c != RuntimeBinding::DictGasRefund ==> call_count(final(block).instructions@, c)
                    == call_count(old(block).instructions@, c),
    {
        self.ensure_declared(module, RuntimeBinding::DictGasRefund)?;
        let args = vec![dict_ptr];
        proof {
            assert(args@ =~= seq![dict_ptr]);
        }
        let (op, _result) = block.append_call(RuntimeBinding::DictGasRefund, args, location);
        Ok(op)
    }

    /// Register if necessary, then build a call that yields a pointer to the
    /// opaque cost-table structure; no arguments, no failure.
    pub fn get_gas_builtin(
        &mut self,
        module: &mut IrModule,
        block: &mut Block,
        location: Location,
    ) -> (r: Result<OpRef, Error>)
        requires
            unit_consistent(*old(self), *old(module)),
        ensures
            declare_step(
                RuntimeBinding::GetGasBuiltin,
                *old(self),
                *old(module),
                *final(self),
                *final(module),
            ),
            unit_consistent(*final(self), *final(module)),
            final(block).instructions@.len() == old(block).instructions@.len() + 1,
            final(block).instructions@.drop_last() == old(block).instructions@,
            r matches Ok(op) && op.index == old(block).instructions@.len(),
            is_call(
                final(block).instructions@.last(),
                RuntimeBinding::GetGasBuiltin,
                Seq::<Value>::empty(),
                Some((Value { id: old(block).instructions@.len() as usize })),
                location,
            ),
            call_count(final(block).instructions@, RuntimeBinding::GetGasBuiltin) == call_count(
                old(block).instructions@,
                RuntimeBinding::GetGasBuiltin,
            ) + 1,
            forall|c: RuntimeBinding|
                c != RuntimeBinding::GetGasBuiltin ==> call_count(final(block).instructions@, c)
                    == call_count(old(block).instructions@, c),
    {
        self.ensure_declared(module, RuntimeBinding::GetGasBuiltin)?;
        let args: Vec<Value> = Vec::new();
        proof {
            assert(args@ =~= Seq::<Value>::empty());
        }
        let (op, _result) = block.append_call(RuntimeBinding::GetGasBuiltin, args, location);
        Ok(op)
    }

    /// Register if necessary, then build a call of the host-callback escape
    /// hatch: the handler named by the selector receives packed arguments
    /// and writes its packed result through `result_ptr`. Available only
    /// when the enabling capability was selected at startup; without it this
    /// entry point cannot be referenced at all.
    pub fn vtable_cheatcode(
        &mut self,
        module: &mut IrModule,
        block: &mut Block,
        location: Location,
        result_ptr: Value,
        selector_ptr: Value,
        args_ptr: Value,
    ) -> (r: Result<OpRef, Error>)
        requires
            old(self).enables(RuntimeBinding::VtableCheatcode),
            unit_consistent(*old(self), *old(module)),
        ensures
            declare_step(
                RuntimeBinding::VtableCheatcode,
                *old(self),
                *old(module),
                *final(self),
                *final(module),
            ),
            unit_consistent(*final(self), *final(module)),
            final(block).instructions@.len() == old(block).instructions@.len() + 1,
            final(block).instructions@.drop_last() == old(block).instructions@,
            r matches Ok(op) && op.index == old(block).instructions@.len(),
            is_call(
                final(block).instructions@.last(),
                RuntimeBinding::VtableCheatcode,
                seq![result_ptr, selector_ptr, args_ptr],
                None::<Value>,
                location,
            ),
            call_count(final(block).instructions@, RuntimeBinding::VtableCheatcode) == call_count(
                old(block).instructions@,
                RuntimeBinding::VtableCheatcode,
            ) + 1,
            forall|c: RuntimeBinding|
                c != RuntimeBinding::VtableCheatcode ==> call_count(final(block).instructions@, c)
                    == call_count(old(block).instructions@, c),
    {
        self.ensure_declared(module, RuntimeBinding::VtableCheatcode)?;
        let args = vec![result_ptr, selector_ptr, args_ptr];
        proof {
            assert(args@ =~= seq![result_ptr, selector_ptr, args_ptr]);
        }
        let (op, _result) = block.append_call(RuntimeBinding::VtableCheatcode, args, location);
        Ok(op)
    }

    /// Register if necessary, then build a call that allocates a new empty
    /// map for elements of the given layout. The size and alignment are
    /// emitted as integer constant operands; the call yields the opaque map
    /// handle.
    pub fn dict_new(
        &mut self,
        module: &mut IrModule,
        block: &mut Block,
        location: Location,
        layout: ElementLayout,
    ) -> (r: Result<Value, Error>)
        requires
            unit_consistent(*old(self), *old(module)),
        ensures
            declare_step(
                RuntimeBinding::DictNew,
                *old(self),
                *old(module),
                *final(self),
                *final(module),
            ),
            unit_consistent(*final(self), *final(module)),
            final(block).instructions@.len() == old(block).instructions@.len() + 3,
            final(block).instructions@.subrange(0, old(block).instructions@.len() as int) == old(
                block,
            ).instructions@,
            final(block).instructions@[old(block).instructions@.len() as int] == (
            Instruction::ConstInt {
                ty: AbiType::I64,
                value: layout.size,
                result: (Value { id: old(block).instructions@.len() as usize }),
                location,
            }),
            final(block).instructions@[old(block).instructions@.len() as int + 1] == (
            Instruction::ConstInt {
                ty: AbiType::I64,
                value: layout.align,
                result: (Value { id: (old(block).instructions@.len() + 1) as usize }),
                location,
            }),
            is_call(
                final(block).instructions@.last(),
                RuntimeBinding::DictNew,
                seq![
                    (Value { id: old(block).instructions@.len() as usize }),
                    (Value { id: (old(block).instructions@.len() + 1) as usize }),
                ],
                Some((Value { id: (old(block).instructions@.len() + 2) as usize })),
                location,
            ),
            r matches Ok(v) && v.id == old(block).instructions@.len() + 2,
            call_count(final(block).instructions@, RuntimeBinding::DictNew) == call_count(
                old(block).instructions@,
                RuntimeBinding::DictNew,
            ) + 1,
            forall|c: RuntimeBinding|
                c != RuntimeBinding::DictNew ==> call_count(final(block).instructions@, c)
                    == call_count(old(block).instructions@, c),
    {
        self.ensure_declared(module, RuntimeBinding::DictNew)?;
        let size = block.append_const_int(AbiType::I64, layout.size, location);
        let align = block.append_const_int(AbiType::I64, layout.align, location);
        let args = vec![size, align];
        proof {
            assert(args@ =~= seq![size, align]);
        }
        let (_op, result) = block.append_call(RuntimeBinding::DictNew, args, location);
        proof {
            let l0: int = old(block).instructions@.len() as int;
            assert(block.instructions@[l0] == block.instructions@.drop_last()[l0]);
            assert(block.instructions@[l0 + 1] == block.instructions@.drop_last()[l0 + 1]);
            assert(block.instructions@.subrange(0, l0) =~= old(block).instructions@);
        }
        Ok(result.unwrap())
    }

    /// Register if necessary, then build a call that releases a map's
    /// storage. An absent per-element cleanup callback is encoded as a
    /// literal null pointer argument, never omitted.
    pub fn dict_drop(
        &mut self,
        module: &mut IrModule,
        block: &mut Block,
        ptr: Value,
        drop_fn: Option<Value>,
        location: Location,
    ) -> (r: Result<OpRef, Error>)
        requires
            unit_consistent(*old(self), *old(module)),
        ensures
            declare_step(
                RuntimeBinding::DictDrop,
                *old(self),
                *old(module),
                *final(self),
                *final(module),
            ),
            unit_consistent(*final(self), *final(module)),
            drop_fn matches Some(f) ==> {
                &&& final(block).instructions@.len() == old(block).instructions@.len() + 1
                &&& final(block).instructions@.drop_last() == old(block).instructions@
                &&& is_call(
                    final(block).instructions@.last(),
                    RuntimeBinding::DictDrop,
                    seq![ptr, f],
                    None::<Value>,
                    location,
                )
                &&& r matches Ok(op) && op.index == old(block).instructions@.len()
            },
            drop_fn is None ==> {
                &&& final(block).instructions@.len() == old(block).instructions@.len() + 2
                &&& final(block).instructions@.subrange(0, old(block).instructions@.len() as int)
                    == old(block).instructions@
                &&& final(block).instructions@[old(block).instructions@.len() as int] == (
                Instruction::ZeroPointer {
                    result: (Value { id: old(block).instructions@.len() as usize }),
                    location,
                })
                &&& is_call(
                    final(block).instructions@.last(),
                    RuntimeBinding::DictDrop,
                    seq![ptr, (Value { id: old(block).instructions@.len() as usize })],
                    None::<Value>,
                    location,
                )
                &&& r matches Ok(op) && op.index == old(block).instructions@.len() + 1
            },
            call_count(final(block).instructions@, RuntimeBinding::DictDrop) == call_count(
                old(block).instructions@,
                RuntimeBinding::DictDrop,
            ) + 1,
            forall|c: RuntimeBinding|
                c != RuntimeBinding::DictDrop ==> call_count(final(block).instructions@, c)
                    == call_count(old(block).instructions@, c),
    {
        self.ensure_declared(module, RuntimeBinding::DictDrop)?;
        let callback = callback_or_null(block, drop_fn, location);
        let args = vec![ptr, callback];
        proof {
            assert(args@ =~= seq![ptr, callback]);
        }
        let (op, _result) = block.append_call(RuntimeBinding::DictDrop, args, location);
        proof {
            if drop_fn is None {
                let l0: int = old(block).instructions@.len() as int;
                assert(block.instructions@[l0] == block.instructions@.drop_last()[l0]);
                assert(block.instructions@.subrange(0, l0) =~= old(block).instructions@);
            }
        }
        Ok(op)
    }

    /// Register if necessary, then build a call that produces an
    /// independent copy of a map. An absent per-element duplication
    /// callback is encoded as a literal null pointer argument, never
    /// omitted; the call yields the new map handle.
    pub fn dict_dup(
        &mut self,
        module: &mut IrModule,
        block: &mut Block,
        ptr: Value,
        dup_fn: Option<Value>,
        location: Location,
    ) -> (r: Result<Value, Error>)
        requires
            unit_consistent(*old(self), *old(module)),
        ensures
            declare_step(
                RuntimeBinding::DictDup,
                *old(self),
                *old(module),
                *final(self),
                *final(module),
            ),
            unit_consistent(*final(self), *final(module)),
            dup_fn matches Some(f) ==> {
                &&& final(block).instructions@.len() == old(block).instructions@.len() + 1
                &&& final(block).instructions@.drop_last() == old(block).instructions@
                &&& is_call(
                    final(block).instructions@.last(),
                    RuntimeBinding::DictDup,
                    seq![ptr, f],
                    Some((Value { id: old(block).instructions@.len() as usize })),
                    location,
                )
                &&& r matches Ok(v) && v.id == old(block).instructions@.len()
            },
            dup_fn is None ==> {
                &&& final(block).instructions@.len() == old(block).instructions@.len() + 2
                &&& final(block).instructions@.subrange(0, old(block).instructions@.len() as int)
                    == old(block).instructions@
                &&& final(block).instructions@[old(block).instructions@.len() as int] == (
                Instruction::ZeroPointer {
                    result: (Value { id: old(block).instructions@.len() as usize }),
                    location,
                })
                &&& is_call(
                    final(block).instructions@.last(),
                    RuntimeBinding::DictDup,
                    seq![ptr, (Value { id: old(block).instructions@.len() as usize })],
                    Some((Value { id: (old(block).instructions@.len() + 1) as usize })),
                    location,
                )
                &&& r matches Ok(v) && v.id == old(block).instructions@.len() + 1
            },
            call_count(final(block).instructions@, RuntimeBinding::DictDup) == call_count(
                old(block).instructions@,
                RuntimeBinding::DictDup,
            ) + 1,
            forall|c: RuntimeBinding|
                c != RuntimeBinding::DictDup ==> call_count(final(block).instructions@, c)
                    == call_count(old(block).instructions@, c),
    {
        self.ensure_declared(module, RuntimeBinding::DictDup)?;
        let callback = callback_or_null(block, dup_fn, location);
        let args = vec![ptr, callback];
        proof {
            assert(args@ =~= seq![ptr, callback]);
        }
        let (_op, result) = block.append_call(RuntimeBinding::DictDup, args, location);
        proof {
            if dup_fn is None {
                let l0: int = old(block).instructions@.len() as int;
                assert(block.instructions@[l0] == block.instructions@.drop_last()[l0]);
                assert(block.instructions@.subrange(0, l0) =~= old(block).instructions@);
            }
        }
        Ok(result.unwrap())
    }

    /// Register if necessary, then build the lookup of a fixed-width key.
    /// The native signature returns the presence flag and writes the value
    /// pointer through an output parameter, so a stack slot is allocated in
    /// the function's entry block, passed as the third operand, and loaded
    /// back after the call. Yields the presence flag and the loaded value
    /// pointer, which the runtime leaves null when the key is absent.
    pub fn dict_get(
        &mut self,
        module: &mut IrModule,
        init_block: &mut Block,
        block: &mut Block,
        dict_ptr: Value,
        key_ptr: Value,
        location: Location,
    ) -> (r: Result<(Value, Value), Error>)
        requires
            unit_consistent(*old(self), *old(module)),
        ensures
            declare_step(
                RuntimeBinding::DictGet,
                *old(self),
                *old(module),
                *final(self),
                *final(module),
            ),
            unit_consistent(*final(self), *final(module)),
            final(init_block).instructions@ == old(init_block).instructions@.push(
                (Instruction::StackSlot {
                    ty: AbiType::Pointer,
                    result: (Value { id: old(init_block).instructions@.len() as usize }),
                    location,
                }),
            ),
            forall|c: RuntimeBinding|
                call_count(final(init_block).instructions@, c) == call_count(
                    old(init_block).instructions@,
                    c,
                ),
            final(block).instructions@.len() == old(block).instructions@.len() + 2,
            final(block).instructions@.subrange(0, old(block).instructions@.len() as int) == old(
                block,
            ).instructions@,
            is_call(
                final(block).instructions@[old(block).instructions@.len() as int],
                RuntimeBinding::DictGet,
                seq![
                    dict_ptr,
                    key_ptr,
                    (Value { id: old(init_block).instructions@.len() as usize }),
                ],
                Some((Value { id: old(block).instructions@.len() as usize })),
                location,
            ),
            final(block).instructions@.last() == (Instruction::Load {
                ty: AbiType::Pointer,
                source: (Value { id: old(init_block).instructions@.len() as usize }),
                result: (Value { id: (old(block).instructions@.len() + 1) as usize }),
                location,
            }),
            r matches Ok(pair) && {
                &&& pair.0 == (Value { id: old(block).instructions@.len() as usize })
                &&& pair.1 == (Value { id: (old(block).instructions@.len() + 1) as usize })
            },
            call_count(final(block).instructions@, RuntimeBinding::DictGet) == call_count(
                old(block).instructions@,
                RuntimeBinding::DictGet,
            ) + 1,
            forall|c: RuntimeBinding|
                c != RuntimeBinding::DictGet ==> call_count(final(block).instructions@, c)
                    == call_count(old(block).instructions@, c),
    {
        self.ensure_declared(module, RuntimeBinding::DictGet)?;
        let value_slot = init_block.append_stack_slot(AbiType::Pointer, location);
        let args = vec![dict_ptr, key_ptr, value_slot];
        proof {
            assert(args@ =~= seq![dict_ptr, key_ptr, value_slot]);
        }
        let (_op, result) = block.append_call(RuntimeBinding::DictGet, args, location);
        let is_present = result.unwrap();
        let value_ptr = block.append_load(value_slot, AbiType::Pointer, location);
        proof {
            let l0: int = old(block).instructions@.len() as int;
            assert(block.instructions@[l0] == block.instructions@.drop_last()[l0]);
            assert(block.instructions@.subrange(0, l0) =~= old(block).instructions@);
        }
        Ok((is_present, value_ptr))
    }
}

} // verus!
