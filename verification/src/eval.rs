use crate::instr::Op;
use crate::instr::OpV;
use crate::ir::icmp_bits;
use crate::ir::spec_icmp_bits;
use crate::ir::spec_trunc;
use crate::ir::spec_wrap_add;
use crate::ir::spec_wrap_mul;
use crate::ir::spec_wrap_sub;
use crate::ir::trunc_bits;
use crate::ir::wrap_add;
use crate::ir::wrap_mul;
use crate::ir::wrap_sub;
use crate::ir::Fcmp;
use crate::ir::Type;
use crate::ir::Value;
use crate::module::Func;
use crate::module::Module;
use crate::module::ModuleV;
use vstd::prelude::*;

verus! {

/// The outcome of interpreting a function.
#[derive(Clone, Copy, PartialEq, Eq, Structural, Debug)]
pub enum EvalStatus {
    /// The function returned, with the returned bit pattern (0 for a
    /// void return).
    Done(u64),
    /// Evaluation hit a value or instruction it cannot give meaning to.
    Stuck,
    /// The fuel ran out before the function returned.
    Spin,
}

/// The relative order of two floating point payloads.
#[derive(Clone, Copy, PartialEq, Eq, Structural, Debug)]
pub enum FloatOrd {
    /// The left payload is less.
    Lt,
    /// The payloads are equal (both zeroes are equal regardless of sign).
    Eq,
    /// The left payload is greater.
    Gt,
    /// At least one payload is not a number.
    Un,
}

/// Whether a payload is a not-a-number pattern, at 32 or 64 bits.
pub open spec fn spec_is_nan(wide: bool, x: u64) -> bool {
    if wide {
        (x >> 52u64) & 0x7ffu64 == 0x7ffu64 && x & 0xf_ffff_ffff_ffffu64 != 0u64
    } else {
        (x >> 23u64) & 0xffu64 == 0xffu64 && x & 0x7f_ffffu64 != 0u64
    }
}

/// Whether a payload is a not-a-number pattern, at 32 or 64 bits.
pub fn is_nan_bits(wide: bool, x: u64) -> (r: bool)
    ensures
        r == spec_is_nan(wide, x),
{
    if wide {
        (x >> 52u64) & 0x7ffu64 == 0x7ffu64 && x & 0xf_ffff_ffff_ffffu64 != 0u64
    } else {
        (x >> 23u64) & 0xffu64 == 0xffu64 && x & 0x7f_ffffu64 != 0u64
    }
}

/// Compare two floating point payloads of the given width: not-a-number
/// payloads are unordered, the two zeroes are equal, negatives order
/// below positives, and magnitudes order by their pattern.
pub open spec fn spec_float_cmp(wide: bool, a: u64, b: u64) -> FloatOrd {
    let sign = if wide {
        0x8000_0000_0000_0000u64
    } else {
        0x8000_0000u64
    };
    let mag = (sign - 1) as u64;
    if spec_is_nan(wide, a) || spec_is_nan(wide, b) {
        FloatOrd::Un
    } else if a == b || (a & mag == 0u64 && b & mag == 0u64) {
        FloatOrd::Eq
    } else if (a & sign) != (b & sign) {
        if a & sign != 0u64 {
            FloatOrd::Lt
        } else {
            FloatOrd::Gt
        }
    } else if a & sign == 0u64 {
        if a < b {
            FloatOrd::Lt
        } else {
            FloatOrd::Gt
        }
    } else {
        if a < b {
            FloatOrd::Gt
        } else {
            FloatOrd::Lt
        }
    }
}

/// Compare two floating point payloads of the given width.
pub fn float_cmp(wide: bool, a: u64, b: u64) -> (r: FloatOrd)
    ensures
        r == spec_float_cmp(wide, a, b),
{
    let sign: u64 = if wide {
        0x8000_0000_0000_0000u64
    } else {
        0x8000_0000u64
    };
    let mag: u64 = sign - 1;
    if is_nan_bits(wide, a) || is_nan_bits(wide, b) {
        FloatOrd::Un
    } else if a == b || (a & mag == 0u64 && b & mag == 0u64) {
        FloatOrd::Eq
    } else if (a & sign) != (b & sign) {
        if a & sign != 0u64 {
            FloatOrd::Lt
        } else {
            FloatOrd::Gt
        }
    } else if a & sign == 0u64 {
        if a < b {
            FloatOrd::Lt
        } else {
            FloatOrd::Gt
        }
    } else {
        if a < b {
            FloatOrd::Gt
        } else {
            FloatOrd::Lt
        }
    }
}

/// The truth of a floating point comparison predicate for a given order.
pub open spec fn spec_fcmp_holds(pred: Fcmp, ord: FloatOrd) -> bool {
    match pred {
        Fcmp::Oeq => ord is Eq,
        Fcmp::Ogt => ord is Gt,
        Fcmp::Oge => ord is Gt || ord is Eq,
        Fcmp::Olt => ord is Lt,
        Fcmp::Ole => ord is Lt || ord is Eq,
        Fcmp::One => ord is Lt || ord is Gt,
        Fcmp::Ord => !(ord is Un),
        Fcmp::Ueq => ord is Eq || ord is Un,
        Fcmp::Ugt => ord is Gt || ord is Un,
        Fcmp::Uge => ord is Gt || ord is Eq || ord is Un,
        Fcmp::Ult => ord is Lt || ord is Un,
        Fcmp::Ule => ord is Lt || ord is Eq || ord is Un,
        Fcmp::Une => ord is Lt || ord is Gt || ord is Un,
        Fcmp::Uno => ord is Un,
    }
}

/// The truth of a floating point comparison predicate for a given order.
pub fn fcmp_holds(pred: Fcmp, ord: FloatOrd) -> (r: bool)
    ensures
        r == spec_fcmp_holds(pred, ord),
{
    match pred {
        Fcmp::Oeq => matches!(ord, FloatOrd::Eq),
        Fcmp::Ogt => matches!(ord, FloatOrd::Gt),
        Fcmp::Oge => matches!(ord, FloatOrd::Gt | FloatOrd::Eq),
        Fcmp::Olt => matches!(ord, FloatOrd::Lt),
        Fcmp::Ole => matches!(ord, FloatOrd::Lt | FloatOrd::Eq),
        Fcmp::One => matches!(ord, FloatOrd::Lt | FloatOrd::Gt),
        Fcmp::Ord => !matches!(ord, FloatOrd::Un),
        Fcmp::Ueq => matches!(ord, FloatOrd::Eq | FloatOrd::Un),
        Fcmp::Ugt => matches!(ord, FloatOrd::Gt | FloatOrd::Un),
        Fcmp::Uge => matches!(ord, FloatOrd::Gt | FloatOrd::Eq | FloatOrd::Un),
        Fcmp::Ult => matches!(ord, FloatOrd::Lt | FloatOrd::Un),
        Fcmp::Ule => matches!(ord, FloatOrd::Lt | FloatOrd::Eq | FloatOrd::Un),
        Fcmp::Une => matches!(ord, FloatOrd::Lt | FloatOrd::Gt | FloatOrd::Un),
        Fcmp::Uno => matches!(ord, FloatOrd::Un),
    }
}

/// The bit pattern a value stands for under the given arguments and
/// environment: a constant's payload, an argument of the function, or a
/// previously computed instruction result.
pub open spec fn spec_val_of(
    v: Value,
    fidx: usize,
    args: Seq<u64>,
    env: Seq<Option<u64>>,
) -> Option<u64> {
    match v {
        Value::Const { bits, .. } => Option::Some(bits),
        Value::Param { func, index, .. } => if func == fidx && index < args.len() {
            Option::Some(args[index as int])
        } else {
            Option::None
        },
        Value::Instr { id, .. } => if id < env.len() {
            env[id as int]
        } else {
            Option::None
        },
    }
}

/// The bit pattern a value stands for.
pub fn val_of(v: &Value, fidx: usize, args: &Vec<u64>, env: &Vec<Option<u64>>) -> (r: Option<u64>)
    ensures
        r == spec_val_of(*v, fidx, args@, env@),
{
    match v {
        Value::Const { bits, .. } => Some(*bits),
        Value::Param { func, index, .. } => {
            if *func == fidx && *index < args.len() {
                Some(args[*index])
            } else {
                None
            }
        },
        Value::Instr { id, .. } => {
            if *id < env.len() {
                env[*id]
            } else {
                None
            }
        },
    }
}

/// The first incoming pair from position `i` on whose predecessor is
/// `prev`, if any.
pub open spec fn spec_phi_pick(incoming: Seq<(Value, usize)>, prev: usize, i: int) -> Option<Value>
    decreases incoming.len() - i,
{
    if i < 0 || i >= incoming.len() {
        Option::None
    } else if incoming[i].1 == prev {
        Option::Some(incoming[i].0)
    } else {
        spec_phi_pick(incoming, prev, i + 1)
    }
}

/// The first incoming value whose predecessor is `prev`, if any.
fn phi_pick(incoming: &Vec<(Value, usize)>, prev: usize) -> (r: Option<Value>)
    ensures
        r == spec_phi_pick(incoming@, prev, 0),
{
    let mut i: usize = 0;
    while i < incoming.len()
        invariant
            i <= incoming@.len(),
            spec_phi_pick(incoming@, prev, 0) == spec_phi_pick(incoming@, prev, i as int),
        decreases incoming@.len() - i,
    {
        let (v, p) = incoming[i];
        if p == prev {
            return Some(v);
        }
        i += 1;
    }
    None
}

/// The bit pattern computed by a value-producing operation, under the
/// given arguments, environment, and predecessor block: nothing for a
/// terminator, a call, an undefined operand, or mismatched operand types.
pub open spec fn spec_op_value(
    op: OpV,
    fidx: usize,
    args: Seq<u64>,
    env: Seq<Option<u64>>,
    prev: usize,
) -> Option<u64> {
    match op {
        OpV::Add { a, b } => spec_int_binop(0, a, b, fidx, args, env),
        OpV::Sub { a, b } => spec_int_binop(1, a, b, fidx, args, env),
        OpV::Mul { a, b } => spec_int_binop(2, a, b, fidx, args, env),
        OpV::And { a, b } => spec_int_binop(3, a, b, fidx, args, env),
        OpV::Or { a, b } => spec_int_binop(4, a, b, fidx, args, env),
        OpV::Xor { a, b } => spec_int_binop(5, a, b, fidx, args, env),
        OpV::Icmp { pred, a, b } => if a.ty_spec() is Int && a.ty_spec() == b.ty_spec() {
            match (spec_val_of(a, fidx, args, env), spec_val_of(b, fidx, args, env)) {
                (Option::Some(va), Option::Some(vb)) => Option::Some(
                    if spec_icmp_bits(pred, a.ty_spec().width(), va, vb) {
                        1u64
                    } else {
                        0u64
                    },
                ),
                _ => Option::None,
            }
        } else {
            Option::None
        },
        OpV::Fcmp { pred, a, b } => if a.ty_spec() == b.ty_spec() && (a.ty_spec() is Float
            || a.ty_spec() is Double) {
            match (spec_val_of(a, fidx, args, env), spec_val_of(b, fidx, args, env)) {
                (Option::Some(va), Option::Some(vb)) => {
                    let wide = a.ty_spec() is Double;
                    let pa = if wide {
                        va
                    } else {
                        spec_trunc(32, va)
                    };
                    let pb = if wide {
                        vb
                    } else {
                        spec_trunc(32, vb)
                    };
                    Option::Some(
                        if spec_fcmp_holds(pred, spec_float_cmp(wide, pa, pb)) {
                            1u64
                        } else {
                            0u64
                        },
                    )
                },
                _ => Option::None,
            }
        } else {
            Option::None
        },
        OpV::Phi { incoming, .. } => match spec_phi_pick(incoming, prev, 0) {
            Option::Some(v) => spec_val_of(v, fidx, args, env),
            Option::None => Option::None,
        },
        _ => Option::None,
    }
}

/// The folded integer binary operation named by `k`, truncated to the
/// operands' common width; nothing unless both operands are defined and
/// share one integer type.
pub open spec fn spec_int_binop(
    k: int,
    a: Value,
    b: Value,
    fidx: usize,
    args: Seq<u64>,
    env: Seq<Option<u64>>,
) -> Option<u64> {
    if a.ty_spec() is Int && a.ty_spec() == b.ty_spec() {
        match (spec_val_of(a, fidx, args, env), spec_val_of(b, fidx, args, env)) {
            (Option::Some(va), Option::Some(vb)) => {
                let w = a.ty_spec().width();
                if k == 0 {
                    Option::Some(spec_trunc(w, spec_wrap_add(va, vb)))
                } else if k == 1 {
                    Option::Some(spec_trunc(w, spec_wrap_sub(va, vb)))
                } else if k == 2 {
                    Option::Some(spec_trunc(w, spec_wrap_mul(va, vb)))
                } else if k == 3 {
                    Option::Some(spec_trunc(w, va & vb))
                } else if k == 4 {
                    Option::Some(spec_trunc(w, va | vb))
                } else {
                    Option::Some(spec_trunc(w, va ^ vb))
                }
            },
            _ => Option::None,
        }
    } else {
        Option::None
    }
}

/// The bit pattern computed by a value-producing operation.
fn op_value(op: &Op, fidx: usize, args: &Vec<u64>, env: &Vec<Option<u64>>, prev: usize) -> (r:
    Option<u64>)
    ensures
        r == spec_op_value(op@, fidx, args@, env@, prev),
{
    match op {
        Op::Add { a, b } => int_binop(0, a, b, fidx, args, env),
        Op::Sub { a, b } => int_binop(1, a, b, fidx, args, env),
        Op::Mul { a, b } => int_binop(2, a, b, fidx, args, env),
        Op::And { a, b } => int_binop(3, a, b, fidx, args, env),
        Op::Or { a, b } => int_binop(4, a, b, fidx, args, env),
        Op::Xor { a, b } => int_binop(5, a, b, fidx, args, env),
        Op::Icmp { pred, a, b } => {
            if a.same_int_type(b) {
                let w: u32 = match a.type_of() {
                    Ok(Type::Int { bits }) => bits,
                    _ => 0,
                };
                match (val_of(a, fidx, args, env), val_of(b, fidx, args, env)) {
                    (Some(va), Some(vb)) => Some(
                        if icmp_bits(*pred, w, va, vb) {
                            1
                        } else {
                            0
                        },
                    ),
                    _ => None,
                }
            } else {
                None
            }
        },
        Op::Fcmp { pred, a, b } => {
            let ta = match a.type_of() {
                Ok(t) => t,
                Err(_) => Type::Void,
            };
            let tb = match b.type_of() {
                Ok(t) => t,
                Err(_) => Type::Void,
            };
            if ta == tb && (matches!(ta, Type::Float) || matches!(ta, Type::Double)) {
                match (val_of(a, fidx, args, env), val_of(b, fidx, args, env)) {
                    (Some(va), Some(vb)) => {
                        let wide: bool = matches!(ta, Type::Double);
                        let pa: u64 = if wide {
                            va
                        } else {
                            trunc_bits(32, va)
                        };
                        let pb: u64 = if wide {
                            vb
                        } else {
                            trunc_bits(32, vb)
                        };
                        Some(
                            if fcmp_holds(*pred, float_cmp(wide, pa, pb)) {
                                1
                            } else {
                                0
                            },
                        )
                    },
                    _ => None,
                }
            } else {
                None
            }
        },
        Op::Phi { incoming, .. } => {
            match phi_pick(incoming, prev) {
                Some(v) => val_of(&v, fidx, args, env),
                None => None,
            }
        },
        _ => None,
    }
}

/// The folded integer binary operation named by `k`.
fn int_binop(k: u8, a: &Value, b: &Value, fidx: usize, args: &Vec<u64>, env: &Vec<Option<u64>>)
    -> (r: Option<u64>)
    requires
        k < 6,
    ensures
        r == spec_int_binop(k as int, *a, *b, fidx, args@, env@),
{
    if a.same_int_type(b) {
        let w: u32 = match a.type_of() {
            Ok(Type::Int { bits }) => bits,
            _ => 0,
        };
        match (val_of(a, fidx, args, env), val_of(b, fidx, args, env)) {
            (Some(va), Some(vb)) => {
                if k == 0 {
                    Some(trunc_bits(w, wrap_add(va, vb)))
                } else if k == 1 {
                    Some(trunc_bits(w, wrap_sub(va, vb)))
                } else if k == 2 {
                    Some(trunc_bits(w, wrap_mul(va, vb)))
                } else if k == 3 {
                    Some(trunc_bits(w, va & vb))
                } else if k == 4 {
                    Some(trunc_bits(w, va | vb))
                } else {
                    Some(trunc_bits(w, va ^ vb))
                }
            },
            _ => None,
        }
    } else {
        None
    }
}

/// A fresh environment of `n` undefined slots.
fn make_env(n: usize) -> (r: Vec<Option<u64>>)
    ensures
        r@ == Seq::new(n as nat, |i: int| Option::<u64>::None),
{
    let mut out: Vec<Option<u64>> = Vec::new();
    let mut i: usize = 0;
    while i < n
        invariant
            i <= n,
            out@.len() == i,
            forall|j: int| 0 <= j < i ==> out@[j] is None,
        decreases n - i,
    {
        out.push(None);
        i += 1;
    }
    proof {
        assert(out@ =~= Seq::new(n as nat, |i: int| Option::<u64>::None));
    }
    out
}

/// The bit patterns of a call's arguments, from position `i` on; nothing
/// when any argument is undefined.
pub open spec fn spec_args_eval(
    vs: Seq<Value>,
    fidx: usize,
    args: Seq<u64>,
    env: Seq<Option<u64>>,
    i: int,
) -> Option<Seq<u64>>
    decreases vs.len() - i,
{
    if i < 0 || i >= vs.len() {
        Option::Some(Seq::empty())
    } else {
        match spec_val_of(vs[i], fidx, args, env) {
            Option::Some(x) => match spec_args_eval(vs, fidx, args, env, i + 1) {
                Option::Some(rest) => Option::Some(seq![x] + rest),
                Option::None => Option::None,
            },
            Option::None => Option::None,
        }
    }
}

/// The bit patterns of a call's arguments, from position `i` on.
fn args_eval(vs: &Vec<Value>, fidx: usize, args: &Vec<u64>, env: &Vec<Option<u64>>, i: usize)
    -> (r: Option<Vec<u64>>)
    ensures
        r matches Some(v) ==> (spec_args_eval(vs@, fidx, args@, env@, i as int) matches Some(s)
            && v@ == s),
        r is None ==> spec_args_eval(vs@, fidx, args@, env@, i as int) is None,
    decreases vs@.len() - i,
{
    if i >= vs.len() {
        let out: Vec<u64> = Vec::new();
        proof {
            assert(out@ =~= Seq::<u64>::empty());
        }
        Some(out)
    } else {
        match val_of(&vs[i], fidx, args, env) {
            Some(x) => match args_eval(vs, fidx, args, env, i + 1) {
                Some(mut rest) => {
                    let mut out: Vec<u64> = Vec::new();
                    out.push(x);
                    out.append(&mut rest);
                    proof {
                        let s = spec_args_eval(vs@, fidx, args@, env@, i as int);
                        assert(s matches Some(sv) ==> out@ =~= sv);
                    }
                    Some(out)
                },
                None => None,
            },
            None => None,
        }
    }
}

/// Interpret function `fidx` of module `m` from instruction `pc` of block
/// `cur`, arrived at from block `prev`, under the given arguments and
/// environment.  Block transitions and calls each consume one unit of
/// fuel; evaluation that cannot proceed reports itself stuck.
pub open spec fn spec_eval_in(
    m: ModuleV,
    fidx: usize,
    args: Seq<u64>,
    env: Seq<Option<u64>>,
    prev: usize,
    cur: usize,
    pc: int,
    fuel: nat,
) -> EvalStatus
    decreases fuel, m.funcs[fidx as int].blocks[cur as int].instrs.len() - pc,
{
    if !(fidx < m.funcs.len()) {
        EvalStatus::Stuck
    } else if !(cur < m.funcs[fidx as int].blocks.len()) {
        EvalStatus::Stuck
    } else if !(0 <= pc < m.funcs[fidx as int].blocks[cur as int].instrs.len()) {
        EvalStatus::Stuck
    } else {
        let inst = m.funcs[fidx as int].blocks[cur as int].instrs[pc];
        match inst.op {
            OpV::Br { dest } => if fuel == 0 {
                EvalStatus::Spin
            } else {
                spec_eval_in(m, fidx, args, env, cur, dest, 0, (fuel - 1) as nat)
            },
            OpV::CondBr { cond, then_dest, else_dest } => match spec_val_of(
                cond,
                fidx,
                args,
                env,
            ) {
                Option::Some(c) => if fuel == 0 {
                    EvalStatus::Spin
                } else if c != 0u64 {
                    spec_eval_in(m, fidx, args, env, cur, then_dest, 0, (fuel - 1) as nat)
                } else {
                    spec_eval_in(m, fidx, args, env, cur, else_dest, 0, (fuel - 1) as nat)
                },
                Option::None => EvalStatus::Stuck,
            },
            OpV::Ret { val } => match val {
                Option::Some(v) => match spec_val_of(v, fidx, args, env) {
                    Option::Some(x) => EvalStatus::Done(x),
                    Option::None => EvalStatus::Stuck,
                },
                Option::None => EvalStatus::Done(0u64),
            },
            OpV::Call { func, args: call_args } => match spec_args_eval(
                call_args,
                fidx,
                args,
                env,
                0,
            ) {
                Option::Some(vals) => if !(func < m.funcs.len()) {
                    EvalStatus::Stuck
                } else if fuel == 0 {
                    EvalStatus::Spin
                } else {
                    let sub = spec_eval_in(
                        m,
                        func,
                        vals,
                        Seq::new(m.funcs[func as int].n_values as nat, |i: int| Option::<u64>::None),
                        0,
                        0,
                        0,
                        (fuel - 1) as nat,
                    );
                    match sub {
                        EvalStatus::Done(x) => if inst.id < env.len() {
                            spec_eval_in(
                                m,
                                fidx,
                                args,
                                env.update(inst.id as int, Option::Some(x)),
                                prev,
                                cur,
                                pc + 1,
                                (fuel - 1) as nat,
                            )
                        } else {
                            EvalStatus::Stuck
                        },
                        s => s,
                    }
                },
                Option::None => EvalStatus::Stuck,
            },
            op => match spec_op_value(op, fidx, args, env, prev) {
                Option::Some(x) => if inst.id < env.len() {
                    spec_eval_in(
                        m,
                        fidx,
                        args,
                        env.update(inst.id as int, Option::Some(x)),
                        prev,
                        cur,
                        pc + 1,
                        fuel,
                    )
                } else {
                    EvalStatus::Stuck
                },
                Option::None => EvalStatus::Stuck,
            },
        }
    }
}

/// Interpret function `fidx` of module `m` on the given argument bit
/// patterns, from its entry block, with a fresh environment.
pub open spec fn spec_eval_func(m: ModuleV, fidx: usize, args: Seq<u64>, fuel: nat) -> EvalStatus {
    if fidx < m.funcs.len() {
        spec_eval_in(
            m,
            fidx,
            args,
            Seq::new(m.funcs[fidx as int].n_values as nat, |i: int| Option::<u64>::None),
            0,
            0,
            0,
            fuel,
        )
    } else {
        EvalStatus::Stuck
    }
}

/// Interpret from instruction `pc` of block `cur` of function `fidx`.
fn eval_in(
    m: &Module,
    fidx: usize,
    args: &Vec<u64>,
    env: Vec<Option<u64>>,
    prev: usize,
    cur: usize,
    pc: usize,
    fuel: u64,
) -> (r: EvalStatus)
    ensures
        r == spec_eval_in(m@, fidx, args@, env@, prev, cur, pc as int, fuel as nat),
    decreases fuel, (if fidx < m@.funcs.len() && cur < m@.funcs[fidx as int].blocks.len() {
        m@.funcs[fidx as int].blocks[cur as int].instrs.len() - pc
    } else {
        0
    }),
{
    let mut env = env;
    if !(fidx < m.function_count()) {
        return EvalStatus::Stuck;
    }
    if !(cur < m.n_blocks(fidx)) {
        return EvalStatus::Stuck;
    }
    if !(pc < m.n_instrs(fidx, cur)) {
        return EvalStatus::Stuck;
    }
    let inst = m.instr_at(fidx, cur, pc);
    let iid: usize = inst.id;
    match &inst.op {
        Op::Br { dest } => {
            if fuel == 0 {
                EvalStatus::Spin
            } else {
                eval_in(m, fidx, args, env, cur, *dest, 0, fuel - 1)
            }
        },
        Op::CondBr { cond, then_dest, else_dest } => {
            match val_of(cond, fidx, args, &env) {
                Some(c) => {
                    if fuel == 0 {
                        EvalStatus::Spin
                    } else if c != 0 {
                        eval_in(m, fidx, args, env, cur, *then_dest, 0, fuel - 1)
                    } else {
                        eval_in(m, fidx, args, env, cur, *else_dest, 0, fuel - 1)
                    }
                },
                None => EvalStatus::Stuck,
            }
        },
        Op::Ret { val } => {
            match val {
                Some(v) => match val_of(v, fidx, args, &env) {
                    Some(x) => EvalStatus::Done(x),
                    None => EvalStatus::Stuck,
                },
                None => EvalStatus::Done(0),
            }
        },
        Op::Call { func, args: call_args } => {
            match args_eval(call_args, fidx, args, &env, 0) {
                Some(vals) => {
                    if !(*func < m.function_count()) {
                        EvalStatus::Stuck
                    } else if fuel == 0 {
                        EvalStatus::Spin
                    } else {
                        let sub_env = make_env(m.n_values_of(*func));
                        let sub = eval_in(m, *func, &vals, sub_env, 0, 0, 0, fuel - 1);
                        match sub {
                            EvalStatus::Done(x) => {
                                if iid < env.len() {
                                    env[iid] = Some(x);
                                    if pc < usize::MAX {
                                        eval_in(m, fidx, args, env, prev, cur, pc + 1, fuel - 1)
                                    } else {
                                        EvalStatus::Stuck
                                    }
                                } else {
                                    EvalStatus::Stuck
                                }
                            },
                            s => s,
                        }
                    }
                },
                None => EvalStatus::Stuck,
            }
        },
        op => {
            match op_value(op, fidx, args, &env, prev) {
                Some(x) => {
                    if iid < env.len() {
                        env[iid] = Some(x);
                        if pc < usize::MAX {
                            eval_in(m, fidx, args, env, prev, cur, pc + 1, fuel)
                        } else {
                            EvalStatus::Stuck
                        }
                    } else {
                        EvalStatus::Stuck
                    }
                },
                None => EvalStatus::Stuck,
            }
        },
    }
}

/// Interpret a function of the module on the given argument bit
/// patterns: the reference semantics of the intermediate representation.
pub fn eval_function(m: &Module, f: &Func, args: &Vec<u64>, fuel: u64) -> (r: EvalStatus)
    ensures
        r == spec_eval_func(m@, f@.idx, args@, fuel as nat),
{
    let fidx = f.index();
    if !(fidx < m.function_count()) {
        return EvalStatus::Stuck;
    }
    let env = make_env(m.n_values_of(fidx));
    eval_in(m, fidx, args, env, 0, 0, 0, fuel)
}

} // verus!
