//! The in-memory program representation that the call emitters build.
//!
//! A compilation unit holds forward declarations at its top level; a block
//! holds the instructions appended while lowering one function. Operand
//! handles are opaque to this layer: it never inspects what they stand for,
//! it only threads them into call instructions. The block's append methods
//! are the only way instructions are built, so every instruction's shape is
//! pinned by their contracts.

use vstd::prelude::*;
use crate::catalog::{AbiType, RuntimeBinding, params_of, results_of, symbol_of, symbol_string, catalog_results};

verus! {

/// An IR-level operand handle (a pointer, integer or opaque handle already
/// lowered by the surrounding code generator). This layer does not own such
/// values and never looks inside them.
#[derive(Clone, Copy, Debug, PartialEq, Eq, Structural)]
pub struct Value {
    pub id: usize,
}

/// A source-location handle attached to each built instruction.
#[derive(Clone, Copy, Debug, PartialEq, Eq, Structural)]
pub struct Location {
    pub id: u64,
}

/// The position of an appended instruction inside its block.
#[derive(Clone, Copy, Debug, PartialEq, Eq, Structural)]
pub struct OpRef {
    pub index: usize,
}

/// Symbol visibility of a declaration within the generated unit.
#[derive(Clone, Copy, Debug, PartialEq, Eq, Structural)]
pub enum Visibility {
    Private,
    Public,
}

/// Linkage of a declared symbol. Every catalog entry is resolved against the
/// runtime support library at link or load time.
#[derive(Clone, Copy, Debug, PartialEq, Eq, Structural)]
pub enum Linkage {
    External,
}

/// A forward declaration of one runtime entry point: name, signature and
/// linkage attributes, appended at most once to a unit's top level.
#[derive(Debug, PartialEq, Eq)]
pub struct FuncDeclaration {
    pub binding: RuntimeBinding,
    pub symbol: String,
    pub params: Vec<AbiType>,
    pub results: Vec<AbiType>,
    pub visibility: Visibility,
    pub linkage: Linkage,
}

/// One instruction appended to a block while lowering.
#[derive(Debug, PartialEq, Eq)]
pub enum Instruction {
    /// A call against a declared runtime symbol.
    Call {
        callee: RuntimeBinding,
        symbol: String,
        args: Vec<Value>,
        result_types: Vec<AbiType>,
        result: Option<Value>,
        location: Location,
    },
    /// A fixed-width integer constant.
    ConstInt { ty: AbiType, value: u64, result: Value, location: Location },
    /// A literal null/zero pointer value.
    ZeroPointer { result: Value, location: Location },
    /// A stack slot allocation, used to emulate an output parameter.
    StackSlot { ty: AbiType, result: Value, location: Location },
    /// A load from a previously allocated slot.
    Load { ty: AbiType, source: Value, result: Value, location: Location },
}

/// One compilation unit: the top-level symbol table of forward declarations.
#[derive(Debug)]
pub struct IrModule {
    pub declarations: Vec<FuncDeclaration>,
}

/// One block of instructions being filled by the code generator.
#[derive(Debug)]
pub struct Block {
    pub instructions: Vec<Instruction>,
}

/// Whether a declaration is the catalog row of its own discriminant: symbol,
/// parameter and result lists exactly as the ABI table fixes them, private
/// visibility and external linkage.
pub open spec fn valid_decl(d: FuncDeclaration) -> bool {
    &&& d.symbol@ == symbol_of(d.binding)
    &&& d.params@ == params_of(d.binding)
    &&& d.results@ == results_of(d.binding)
    &&& d.visibility == Visibility::Private
    &&& d.linkage == Linkage::External
}

/// How many declarations of the given entry point a unit holds.
pub open spec fn decl_count(decls: Seq<FuncDeclaration>, binding: RuntimeBinding) -> int
    decreases decls.len(),
{
    if decls.len() == 0 {
        0
    } else {
        decl_count(decls.drop_last(), binding) + if decls.last().binding == binding {
            1int
        } else {
            0int
        }
    }
}

/// Whether an instruction is a call referencing the given entry point.
pub open spec fn is_call_to(inst: Instruction, binding: RuntimeBinding) -> bool {
    inst matches Instruction::Call { callee, .. } && callee == binding
}

/// How many call instructions referencing the given entry point a block holds.
pub open spec fn call_count(insts: Seq<Instruction>, binding: RuntimeBinding) -> int
    decreases insts.len(),
{
    if insts.len() == 0 {
        0
    } else {
        call_count(insts.drop_last(), binding) + if is_call_to(insts.last(), binding) {
            1int
        } else {
            0int
        }
    }
}

/// Whether an instruction is a call of the given entry point with exactly the
/// given operands, the catalog's symbol and signature, and the given result.
pub open spec fn is_call(
    inst: Instruction,
    callee: RuntimeBinding,
    args: Seq<Value>,
    result: Option<Value>,
    location: Location,
) -> bool {
    match inst {
        Instruction::Call {
            callee: c,
            symbol,
            args: a,
            result_types,
            result: res,
            location: loc,
        } => {
            &&& c == callee
            &&& symbol@ == symbol_of(callee)
            &&& a@ == args
            &&& result_types@ == results_of(callee)
            &&& res == result
            &&& loc == location
        },
        _ => false,
    }
}

impl IrModule {
    /// A fresh unit with no declarations.
    pub fn new() -> (m: IrModule)
        ensures
            m.declarations@.len() == 0,
    {
        IrModule { declarations: Vec::new() }
    }

    /// How many declarations of the given entry point this unit holds.
    pub fn declarations_of(&self, binding: RuntimeBinding) -> (n: usize)
        ensures
            n == decl_count(self.declarations@, binding),
    {
        let mut n: usize = 0;
        let mut i: usize = 0;
        while i < self.declarations.len()
            invariant
                i <= self.declarations@.len(),
                n <= i,
                n as int == decl_count(self.declarations@.take(i as int), binding),
            decreases self.declarations@.len() - i,
        {
            proof {
                assert(self.declarations@.take(i as int + 1).drop_last() =~= self.declarations@.take(
                    i as int,
                ));
                assert(self.declarations@.take(i as int + 1).last() == self.declarations@[i as int]);
            }
            let hit = self.declarations[i].binding == binding;
            if hit {
                n = n + 1;
            }
            i = i + 1;
        }
        proof {
            assert(self.declarations@.take(self.declarations@.len() as int)
                =~= self.declarations@);
        }
        n
    }
}

impl Block {
    /// A fresh, empty block.
    pub fn new() -> (b: Block)
        ensures
            b.instructions@.len() == 0,
    {
        Block { instructions: Vec::new() }
    }

    /// How many call instructions referencing the given entry point this
    /// block holds.
    pub fn calls_to(&self, binding: RuntimeBinding) -> (n: usize)
        ensures
            n == call_count(self.instructions@, binding),
    {
        let mut n: usize = 0;
        let mut i: usize = 0;
        while i < self.instructions.len()
            invariant
                i <= self.instructions@.len(),
                n <= i,
                n as int == call_count(self.instructions@.take(i as int), binding),
            decreases self.instructions@.len() - i,
        {
            proof {
                assert(self.instructions@.take(i as int + 1).drop_last() =~= self.instructions@.take(
                    i as int,
                ));
                assert(self.instructions@.take(i as int + 1).last() == self.instructions@[i as int]);
            }
            let hit = match &self.instructions[i] {
                Instruction::Call { callee, .. } => *callee == binding,
                _ => false,
            };
            if hit {
                n = n + 1;
            }
            i = i + 1;
        }
        proof {
            assert(self.instructions@.take(self.instructions@.len() as int)
                =~= self.instructions@);
        }
        n
    }

    /// Append an integer constant; its value becomes usable as an operand.
    pub fn append_const_int(&mut self, ty: AbiType, value: u64, location: Location) -> (r: Value)
        ensures
            r.id == old(self).instructions@.len(),
            final(self).instructions@ == old(self).instructions@.push(
                (Instruction::ConstInt { ty, value, result: r, location }),
            ),
            forall|c: RuntimeBinding|
                call_count(final(self).instructions@, c) == call_count(old(self).instructions@, c),
    {
        let result = Value { id: self.instructions.len() };
        self.instructions.push(Instruction::ConstInt { ty, value, result, location });
        proof {
            lemma_count_push_other(old(self).instructions@, self.instructions@.last());
            assert(self.instructions@.drop_last() =~= old(self).instructions@);
        }
        result
    }

    /// Append a literal null/zero pointer value.
    pub fn append_zero_pointer(&mut self, location: Location) -> (r: Value)
        ensures
            r.id == old(self).instructions@.len(),
            final(self).instructions@ == old(self).instructions@.push(
                (Instruction::ZeroPointer { result: r, location }),
            ),
            forall|c: RuntimeBinding|
                call_count(final(self).instructions@, c) == call_count(old(self).instructions@, c),
    {
        let result = Value { id: self.instructions.len() };
        self.instructions.push(Instruction::ZeroPointer { result, location });
        proof {
            lemma_count_push_other(old(self).instructions@, self.instructions@.last());
            assert(self.instructions@.drop_last() =~= old(self).instructions@);
        }
        result
    }

    /// Allocate a stack slot of the given type, for output-parameter
    /// emulation.
    pub fn append_stack_slot(&mut self, ty: AbiType, location: Location) -> (r: Value)
        ensures
            r.id == old(self).instructions@.len(),
            final(self).instructions@ == old(self).instructions@.push(
                (Instruction::StackSlot { ty, result: r, location }),
            ),
            forall|c: RuntimeBinding|
                call_count(final(self).instructions@, c) == call_count(old(self).instructions@, c),
    {
        let result = Value { id: self.instructions.len() };
        self.instructions.push(Instruction::StackSlot { ty, result, location });
        proof {
            lemma_count_push_other(old(self).instructions@, self.instructions@.last());
            assert(self.instructions@.drop_last() =~= old(self).instructions@);
        }
        result
    }

    /// Load a value of the given type from a previously allocated slot.
    pub fn append_load(&mut self, source: Value, ty: AbiType, location: Location) -> (r: Value)
        ensures
            r.id == old(self).instructions@.len(),
            final(self).instructions@ == old(self).instructions@.push(
                (Instruction::Load { ty, source, result: r, location }),
            ),
            forall|c: RuntimeBinding|
                call_count(final(self).instructions@, c) == call_count(old(self).instructions@, c),
    {
        let result = Value { id: self.instructions.len() };
        self.instructions.push(Instruction::Load { ty, source, result, location });
        proof {
            lemma_count_push_other(old(self).instructions@, self.instructions@.last());
            assert(self.instructions@.drop_last() =~= old(self).instructions@);
        }
        result
    }

    /// Append a call instruction against the declared symbol of the given
    /// entry point, with the catalog's exact symbol and result types. Yields
    /// the position of the call and its result value, if the entry point
    /// returns one.
    pub fn append_call(
        &mut self,
        callee: RuntimeBinding,
        args: Vec<Value>,
        location: Location,
    ) -> (r: (OpRef, Option<Value>))
        ensures
            r.0.index == old(self).instructions@.len(),
            r.1 == (if results_of(callee).len() == 0 {
                None::<Value>
            } else {
                Some((Value { id: old(self).instructions@.len() as usize }))
            }),
            final(self).instructions@.len() == old(self).instructions@.len() + 1,
            final(self).instructions@.drop_last() == old(self).instructions@,
            is_call(final(self).instructions@.last(), callee, args@, r.1, location),
            call_count(final(self).instructions@, callee) == call_count(
                old(self).instructions@,
                callee,
            ) + 1,
            forall|c: RuntimeBinding|
                c != callee ==> call_count(final(self).instructions@, c) == call_count(
                    old(self).instructions@,
                    c,
                ),
    {
        let index = self.instructions.len();
        let result_types = catalog_results(callee);
        let result = if result_types.len() > 0 {
            Some(Value { id: index })
        } else {
            None
        };
        let symbol = symbol_string(callee);
        self.instructions.push(
            Instruction::Call { callee, symbol, args, result_types, result, location },
        );
        proof {
            assert(self.instructions@.drop_last() =~= old(self).instructions@);
            assert forall|c: RuntimeBinding| c != callee implies call_count(
                self.instructions@,
                c,
            ) == call_count(old(self).instructions@, c) by {
                assert(!is_call_to(self.instructions@.last(), c));
            }
        }
        (OpRef { index }, result)
    }
}

/// Appending a non-call instruction changes no call count.
proof fn lemma_count_push_other(s: Seq<Instruction>, inst: Instruction)
    requires
        forall|c: RuntimeBinding| !is_call_to(inst, c),
    ensures
        forall|c: RuntimeBinding| call_count(s.push(inst), c) == call_count(s, c),
{
    assert forall|c: RuntimeBinding| call_count(s.push(inst), c) == call_count(s, c) by {
        assert(s.push(inst).drop_last() =~= s);
        assert(s.push(inst).last() == inst);
    }
}

} // verus!
