use crate::ir::Fcmp;
use crate::ir::Icmp;
use crate::ir::Type;
use crate::ir::Value;
use vstd::prelude::*;

verus! {

/// The operation performed by one instruction.  Branch targets and phi
/// predecessors name basic blocks by their position in the owning
/// function; call targets name functions by their position in the module.
#[derive(Debug)]
pub enum Op {
    /// Integer addition, wrapping at the operand width.
    Add {
        /// Left operand.
        a: Value,
        /// Right operand.
        b: Value,
    },
    /// Integer subtraction, wrapping at the operand width.
    Sub {
        /// Left operand.
        a: Value,
        /// Right operand.
        b: Value,
    },
    /// Integer multiplication, wrapping at the operand width.
    Mul {
        /// Left operand.
        a: Value,
        /// Right operand.
        b: Value,
    },
    /// Bitwise conjunction.
    And {
        /// Left operand.
        a: Value,
        /// Right operand.
        b: Value,
    },
    /// Bitwise disjunction.
    Or {
        /// Left operand.
        a: Value,
        /// Right operand.
        b: Value,
    },
    /// Bitwise exclusive disjunction.
    Xor {
        /// Left operand.
        a: Value,
        /// Right operand.
        b: Value,
    },
    /// Integer comparison, yielding a 1-bit integer.
    Icmp {
        /// The comparison predicate.
        pred: Icmp,
        /// Left operand.
        a: Value,
        /// Right operand.
        b: Value,
    },
    /// Floating point comparison on raw bit patterns, yielding a 1-bit
    /// integer.
    Fcmp {
        /// The comparison predicate.
        pred: Fcmp,
        /// Left operand.
        a: Value,
        /// Right operand.
        b: Value,
    },
    /// A control-flow merge: selects among the incoming pairs the value
    /// whose block control arrived from.
    Phi {
        /// The merged value's type.
        ty: Type,
        /// The incoming (value, predecessor block) pairs.
        incoming: Vec<(Value, usize)>,
    },
    /// An unconditional branch.
    Br {
        /// The destination block.
        dest: usize,
    },
    /// A two-way conditional branch on a 1-bit integer.
    CondBr {
        /// The branch condition.
        cond: Value,
        /// Destination when the condition is nonzero.
        then_dest: usize,
        /// Destination when the condition is zero.
        else_dest: usize,
    },
    /// Return from the function.
    Ret {
        /// The returned value, absent for a void function.
        val: Option<Value>,
    },
    /// Call the module function with the given index.
    Call {
        /// Index of the called function in the module.
        func: usize,
        /// The arguments.
        args: Vec<Value>,
    },
}

/// Mathematical model of an [`Op`].
#[verifier::ext_equal]
pub enum OpV {
    /// Integer addition, wrapping at the operand width.
    Add { /// Left operand.
        a: Value, /// Right operand.
        b: Value },
    /// Integer subtraction, wrapping at the operand width.
    Sub { /// Left operand.
        a: Value, /// Right operand.
        b: Value },
    /// Integer multiplication, wrapping at the operand width.
    Mul { /// Left operand.
        a: Value, /// Right operand.
        b: Value },
    /// Bitwise conjunction.
    And { /// Left operand.
        a: Value, /// Right operand.
        b: Value },
    /// Bitwise disjunction.
    Or { /// Left operand.
        a: Value, /// Right operand.
        b: Value },
    /// Bitwise exclusive disjunction.
    Xor { /// Left operand.
        a: Value, /// Right operand.
        b: Value },
    /// Integer comparison.
    Icmp { /// The predicate.
        pred: Icmp, /// Left operand.
        a: Value, /// Right operand.
        b: Value },
    /// Floating point comparison on raw bit patterns.
    Fcmp { /// The predicate.
        pred: Fcmp, /// Left operand.
        a: Value, /// Right operand.
        b: Value },
    /// A control-flow merge.
    Phi { /// The merged value's type.
        ty: Type, /// The incoming (value, predecessor block) pairs.
        incoming: Seq<(Value, usize)> },
    /// An unconditional branch.
    Br { /// The destination block.
        dest: usize },
    /// A two-way conditional branch.
    CondBr { /// The branch condition.
        cond: Value, /// Destination when the condition is nonzero.
        then_dest: usize, /// Destination when the condition is zero.
        else_dest: usize },
    /// Return from the function.
    Ret { /// The returned value, absent for a void function.
        val: Option<Value> },
    /// Call the module function with the given index.
    Call { /// Index of the called function.
        func: usize, /// The arguments.
        args: Seq<Value> },
}

impl View for Op {
    type V = OpV;

    open spec fn view(&self) -> OpV {
        match self {
            Op::Add { a, b } => OpV::Add { a: *a, b: *b },
            Op::Sub { a, b } => OpV::Sub { a: *a, b: *b },
            Op::Mul { a, b } => OpV::Mul { a: *a, b: *b },
            Op::And { a, b } => OpV::And { a: *a, b: *b },
            Op::Or { a, b } => OpV::Or { a: *a, b: *b },
            Op::Xor { a, b } => OpV::Xor { a: *a, b: *b },
            Op::Icmp { pred, a, b } => OpV::Icmp { pred: *pred, a: *a, b: *b },
            Op::Fcmp { pred, a, b } => OpV::Fcmp { pred: *pred, a: *a, b: *b },
            Op::Phi { ty, incoming } => OpV::Phi { ty: *ty, incoming: incoming@ },
            Op::Br { dest } => OpV::Br { dest: *dest },
            Op::CondBr { cond, then_dest, else_dest } => OpV::CondBr {
                cond: *cond,
                then_dest: *then_dest,
                else_dest: *else_dest,
            },
            Op::Ret { val } => OpV::Ret { val: *val },
            Op::Call { func, args } => OpV::Call { func: *func, args: args@ },
        }
    }
}

impl OpV {
    /// Whether this operation ends a basic block.
    pub open spec fn is_terminator(self) -> bool {
        self is Br || self is CondBr || self is Ret
    }

    /// The type of the value this operation defines.
    pub open spec fn result_ty(self) -> Type {
        match self {
            OpV::Add { a, .. } => a.ty_spec(),
            OpV::Sub { a, .. } => a.ty_spec(),
            OpV::Mul { a, .. } => a.ty_spec(),
            OpV::And { a, .. } => a.ty_spec(),
            OpV::Or { a, .. } => a.ty_spec(),
            OpV::Xor { a, .. } => a.ty_spec(),
            OpV::Icmp { .. } => Type::Int { bits: 1u32 },
            OpV::Fcmp { .. } => Type::Int { bits: 1u32 },
            OpV::Phi { ty, .. } => ty,
            _ => Type::Void,
        }
    }
}

/// One instruction: the operation together with the value id it defines.
#[derive(Debug)]
pub struct Inst {
    /// The value id this instruction defines, local to its function.
    pub id: usize,
    /// The operation performed.
    pub op: Op,
}

/// Mathematical model of an [`Inst`].
#[verifier::ext_equal]
pub struct InstV {
    /// The defined value id.
    pub id: usize,
    /// The operation performed.
    pub op: OpV,
}

impl View for Inst {
    type V = InstV;

    open spec fn view(&self) -> InstV {
        InstV { id: self.id, op: self.op@ }
    }
}

/// One basic block: a named, ordered list of instructions.
#[derive(Debug)]
pub struct Block {
    /// The block's name.
    pub name: String,
    /// The instructions, in program order.
    pub instrs: Vec<Inst>,
}

/// Mathematical model of a [`Block`].
#[verifier::ext_equal]
pub struct BlockV {
    /// The block's name.
    pub name: Seq<char>,
    /// The instructions, in program order.
    pub instrs: Seq<InstV>,
}

impl View for Block {
    type V = BlockV;

    open spec fn view(&self) -> BlockV {
        BlockV { name: self.name@, instrs: self.instrs@.map_values(|i: Inst| i@) }
    }
}

impl BlockV {
    /// Whether the block is closed: nonempty, ending in a terminator,
    /// with no terminator before the end.
    pub open spec fn is_closed(self) -> bool {
        &&& self.instrs.len() > 0
        &&& self.instrs.last().op.is_terminator()
        &&& forall|i: int|
            0 <= i < self.instrs.len() - 1 ==> !(#[trigger] self.instrs[i].op.is_terminator())
    }
}

impl Op {
    /// Whether this operation ends a basic block.
    pub fn terminator(&self) -> (r: bool)
        ensures
            r == self@.is_terminator(),
    {
        match self {
            Op::Br { .. } => true,
            Op::CondBr { .. } => true,
            Op::Ret { .. } => true,
            _ => false,
        }
    }
}

} // verus!
