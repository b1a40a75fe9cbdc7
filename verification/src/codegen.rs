use crate::context::Context;
use crate::error::Error;
use crate::error::Message;
use crate::instr::Op;
use crate::instr::OpV;
use crate::ir::Fcmp;
use crate::ir::Icmp;
use crate::ir::Type;
use crate::ir::Value;
use crate::memory_buffer::MemoryBuffer;
use crate::module::module_wf;
use crate::module::Module;
use crate::module::ModuleV;
use vstd::prelude::*;

verus! {

/// The eight little-endian bytes of one word.
pub open spec fn le8(w: u64) -> Seq<u8> {
    seq![
        (w & 0xff) as u8,
        ((w >> 8u64) & 0xff) as u8,
        ((w >> 16u64) & 0xff) as u8,
        ((w >> 24u64) & 0xff) as u8,
        ((w >> 32u64) & 0xff) as u8,
        ((w >> 40u64) & 0xff) as u8,
        ((w >> 48u64) & 0xff) as u8,
        ((w >> 56u64) & 0xff) as u8,
    ]
}

/// A masked byte fits in eight bits.
proof fn lemma_byte_mask(x: u64)
    ensures
        x & 0xff <= 0xff,
{
    assert(x & 0xff <= 0xff) by (bit_vector);
}

/// Append one word to the buffer as eight little-endian bytes.
fn push_word(out: &mut Vec<u8>, w: u64)
    ensures
        final(out)@ == old(out)@ + le8(w),
{
    proof {
        lemma_byte_mask(w);
        lemma_byte_mask(w >> 8u64);
        lemma_byte_mask(w >> 16u64);
        lemma_byte_mask(w >> 24u64);
        lemma_byte_mask(w >> 32u64);
        lemma_byte_mask(w >> 40u64);
        lemma_byte_mask(w >> 48u64);
        lemma_byte_mask(w >> 56u64);
    }
    out.push((w & 0xff) as u8);
    out.push(((w >> 8u64) & 0xff) as u8);
    out.push(((w >> 16u64) & 0xff) as u8);
    out.push(((w >> 24u64) & 0xff) as u8);
    out.push(((w >> 32u64) & 0xff) as u8);
    out.push(((w >> 40u64) & 0xff) as u8);
    out.push(((w >> 48u64) & 0xff) as u8);
    out.push(((w >> 56u64) & 0xff) as u8);
    proof {
        assert(final(out)@ =~= old(out)@ + le8(w));
    }
}

/// Relies on the standard library's `String::push`: it appends the one
/// character to the end of the owned string.
pub assume_specification[ String::push ](s: &mut String, ch: char)
    ensures
        final(s)@ == old(s)@.push(ch),
;

/// Relies on the standard library's `char::from_u32`: a 32-bit value
/// converts exactly when it is no surrogate and at most the largest
/// scalar value, and converts to the character with that scalar value.
pub assume_specification[ char::from_u32 ](i: u32) -> (r: Option<char>)
    ensures
        (i < 0xD800 || (0xE000 <= i && i <= 0x10FFFF)) <==> r is Some,
        r matches Some(c) ==> c as u32 == i,
;

/// The serialized form of a name's characters, from position `i` on: one
/// word per character, holding its scalar value.
pub open spec fn ser_name(name: Seq<char>, i: int) -> Seq<u8>
    decreases name.len() - i,
{
    if i < 0 || i >= name.len() {
        Seq::empty()
    } else {
        le8(name[i] as u64) + ser_name(name, i + 1)
    }
}

/// Append a name: its character count followed by one word per character.
fn push_name(out: &mut Vec<u8>, s: &str)
    ensures
        final(out)@ == old(out)@ + le8(s@.len() as u64) + ser_name(s@, 0),
{
    let n: usize = s.unicode_len();
    push_word(out, n as u64);
    let ghost base = out@;
    let mut i: usize = 0;
    while i < n
        invariant
            i <= n,
            n == s@.len(),
            out@ + ser_name(s@, i as int) =~= base + ser_name(s@, 0),
        decreases n - i,
    {
        let c: char = s.get_char(i);
        push_word(out, c as u64);
        proof {
            assert(out@ + ser_name(s@, i + 1) =~= base + ser_name(s@, 0));
        }
        i += 1;
    }
    proof {
        assert(out@ =~= base + ser_name(s@, 0));
        assert(final(out)@ =~= old(out)@ + le8(s@.len() as u64) + ser_name(s@, 0));
    }
}

/// The serialized form of a type: a tag word and a width word.
pub open spec fn ser_ty(t: Type) -> Seq<u8> {
    match t {
        Type::Void => le8(0) + le8(0),
        Type::Int { bits } => le8(1) + le8(bits as u64),
        Type::Float => le8(2) + le8(0),
        Type::Double => le8(3) + le8(0),
    }
}

/// Append the serialized form of a type.
fn push_ty(out: &mut Vec<u8>, t: Type)
    ensures
        final(out)@ == old(out)@ + ser_ty(t),
{
    match t {
        Type::Void => {
            push_word(out, 0);
            push_word(out, 0);
        },
        Type::Int { bits } => {
            push_word(out, 1);
            push_word(out, bits as u64);
        },
        Type::Float => {
            push_word(out, 2);
            push_word(out, 0);
        },
        Type::Double => {
            push_word(out, 3);
            push_word(out, 0);
        },
    }
    proof {
        assert(final(out)@ =~= old(out)@ + ser_ty(t));
    }
}

/// The serialized form of a value: a tag word, two payload words, and the
/// value's type.
pub open spec fn ser_val(v: Value) -> Seq<u8> {
    match v {
        Value::Const { ty, bits } => le8(0) + le8(bits) + le8(0) + ser_ty(ty),
        Value::Param { func, index, ty } => le8(1) + le8(func as u64) + le8(index as u64) + ser_ty(
            ty,
        ),
        Value::Instr { id, ty } => le8(2) + le8(id as u64) + le8(0) + ser_ty(ty),
    }
}

/// Append the serialized form of a value.
fn push_val(out: &mut Vec<u8>, v: Value)
    ensures
        final(out)@ == old(out)@ + ser_val(v),
{
    match v {
        Value::Const { ty, bits } => {
            push_word(out, 0);
            push_word(out, bits);
            push_word(out, 0);
            push_ty(out, ty);
        },
        Value::Param { func, index, ty } => {
            push_word(out, 1);
            push_word(out, func as u64);
            push_word(out, index as u64);
            push_ty(out, ty);
        },
        Value::Instr { id, ty } => {
            push_word(out, 2);
            push_word(out, id as u64);
            push_word(out, 0);
            push_ty(out, ty);
        },
    }
    proof {
        assert(final(out)@ =~= old(out)@ + ser_val(v));
    }
}

/// The code of an integer comparison predicate.
pub open spec fn icmp_code(p: Icmp) -> u64 {
    match p {
        Icmp::Eq => 0u64,
        Icmp::Ne => 1u64,
        Icmp::Ugt => 2u64,
        Icmp::Uge => 3u64,
        Icmp::Ult => 4u64,
        Icmp::Ule => 5u64,
        Icmp::Sgt => 6u64,
        Icmp::Sge => 7u64,
        Icmp::Slt => 8u64,
        Icmp::Sle => 9u64,
    }
}

/// The code of a floating point comparison predicate.
pub open spec fn fcmp_code(p: Fcmp) -> u64 {
    match p {
        Fcmp::Oeq => 0u64,
        Fcmp::Ogt => 1u64,
        Fcmp::Oge => 2u64,
        Fcmp::Olt => 3u64,
        Fcmp::Ole => 4u64,
        Fcmp::One => 5u64,
        Fcmp::Ord => 6u64,
        Fcmp::Ueq => 7u64,
        Fcmp::Ugt => 8u64,
        Fcmp::Uge => 9u64,
        Fcmp::Ult => 10u64,
        Fcmp::Ule => 11u64,
        Fcmp::Une => 12u64,
        Fcmp::Uno => 13u64,
    }
}

/// The code of an integer comparison predicate.
fn icmp_code_of(p: Icmp) -> (r: u64)
    ensures
        r == icmp_code(p),
{
    match p {
        Icmp::Eq => 0,
        Icmp::Ne => 1,
        Icmp::Ugt => 2,
        Icmp::Uge => 3,
        Icmp::Ult => 4,
        Icmp::Ule => 5,
        Icmp::Sgt => 6,
        Icmp::Sge => 7,
        Icmp::Slt => 8,
        Icmp::Sle => 9,
    }
}

/// The code of a floating point comparison predicate.
fn fcmp_code_of(p: Fcmp) -> (r: u64)
    ensures
        r == fcmp_code(p),
{
    match p {
        Fcmp::Oeq => 0,
        Fcmp::Ogt => 1,
        Fcmp::Oge => 2,
        Fcmp::Olt => 3,
        Fcmp::Ole => 4,
        Fcmp::One => 5,
        Fcmp::Ord => 6,
        Fcmp::Ueq => 7,
        Fcmp::Ugt => 8,
        Fcmp::Uge => 9,
        Fcmp::Ult => 10,
        Fcmp::Ule => 11,
        Fcmp::Une => 12,
        Fcmp::Uno => 13,
    }
}

/// The serialized form of a phi's incoming pairs, from position `i` on.
pub open spec fn ser_pairs(s: Seq<(Value, usize)>, i: int) -> Seq<u8>
    decreases s.len() - i,
{
    if i < 0 || i >= s.len() {
        Seq::empty()
    } else {
        ser_val(s[i].0) + le8(s[i].1 as u64) + ser_pairs(s, i + 1)
    }
}

/// The serialized form of a call's arguments, from position `i` on.
pub open spec fn ser_vals(s: Seq<Value>, i: int) -> Seq<u8>
    decreases s.len() - i,
{
    if i < 0 || i >= s.len() {
        Seq::empty()
    } else {
        ser_val(s[i]) + ser_vals(s, i + 1)
    }
}

/// The serialized form of an operation: a tag word and its payload.
pub open spec fn ser_op(op: OpV) -> Seq<u8> {
    match op {
        OpV::Add { a, b } => le8(0) + ser_val(a) + ser_val(b),
        OpV::Sub { a, b } => le8(1) + ser_val(a) + ser_val(b),
        OpV::Mul { a, b } => le8(2) + ser_val(a) + ser_val(b),
        OpV::And { a, b } => le8(3) + ser_val(a) + ser_val(b),
        OpV::Or { a, b } => le8(4) + ser_val(a) + ser_val(b),
        OpV::Xor { a, b } => le8(5) + ser_val(a) + ser_val(b),
        OpV::Icmp { pred, a, b } => le8(6) + le8(icmp_code(pred)) + ser_val(a) + ser_val(b),
        OpV::Fcmp { pred, a, b } => le8(7) + le8(fcmp_code(pred)) + ser_val(a) + ser_val(b),
        OpV::Phi { ty, incoming } => le8(8) + ser_ty(ty) + le8(incoming.len() as u64) + ser_pairs(
            incoming,
            0,
        ),
        OpV::Br { dest } => le8(9) + le8(dest as u64),
        OpV::CondBr { cond, then_dest, else_dest } => le8(10) + ser_val(cond) + le8(
            then_dest as u64,
        ) + le8(else_dest as u64),
        OpV::Ret { val } => match val {
            Option::Some(v) => le8(11) + le8(1) + ser_val(v),
            Option::None => le8(11) + le8(0),
        },
        OpV::Call { func, args } => le8(12) + le8(func as u64) + le8(args.len() as u64) + ser_vals(
            args,
            0,
        ),
    }
}

/// Append the serialized form of an operation.
#[verifier::rlimit(60)]
fn push_op(out: &mut Vec<u8>, op: &Op)
    ensures
        final(out)@ == old(out)@ + ser_op(op@),
{
    match op {
        Op::Add { a, b } => {
            push_word(out, 0);
            push_val(out, *a);
            push_val(out, *b);
        },
        Op::Sub { a, b } => {
            push_word(out, 1);
            push_val(out, *a);
            push_val(out, *b);
        },
        Op::Mul { a, b } => {
            push_word(out, 2);
            push_val(out, *a);
            push_val(out, *b);
        },
        Op::And { a, b } => {
            push_word(out, 3);
            push_val(out, *a);
            push_val(out, *b);
        },
        Op::Or { a, b } => {
            push_word(out, 4);
            push_val(out, *a);
            push_val(out, *b);
        },
        Op::Xor { a, b } => {
            push_word(out, 5);
            push_val(out, *a);
            push_val(out, *b);
        },
        Op::Icmp { pred, a, b } => {
            push_word(out, 6);
            push_word(out, icmp_code_of(*pred));
            push_val(out, *a);
            push_val(out, *b);
        },
        Op::Fcmp { pred, a, b } => {
            push_word(out, 7);
            push_word(out, fcmp_code_of(*pred));
            push_val(out, *a);
            push_val(out, *b);
        },
        Op::Phi { ty, incoming } => {
            push_word(out, 8);
            push_ty(out, *ty);
            push_word(out, incoming.len() as u64);
            let ghost base = out@;
            let mut i: usize = 0;
            while i < incoming.len()
                invariant
                    i <= incoming@.len(),
                    out@ + ser_pairs(incoming@, i as int) =~= base + ser_pairs(incoming@, 0),
                decreases incoming@.len() - i,
            {
                let (v, d) = incoming[i];
                push_val(out, v);
                push_word(out, d as u64);
                proof {
                    assert(out@ + ser_pairs(incoming@, i + 1) =~= base + ser_pairs(incoming@, 0));
                }
                i += 1;
            }
            proof {
                assert(out@ =~= base + ser_pairs(incoming@, 0));
            }
        },
        Op::Br { dest } => {
            push_word(out, 9);
            push_word(out, *dest as u64);
        },
        Op::CondBr { cond, then_dest, else_dest } => {
            push_word(out, 10);
            push_val(out, *cond);
            push_word(out, *then_dest as u64);
            push_word(out, *else_dest as u64);
        },
        Op::Ret { val } => {
            push_word(out, 11);
            match val {
                Some(v) => {
                    push_word(out, 1);
                    push_val(out, *v);
                },
                None => {
                    push_word(out, 0);
                },
            }
        },
        Op::Call { func, args } => {
            push_word(out, 12);
            push_word(out, *func as u64);
            push_word(out, args.len() as u64);
            let ghost base = out@;
            let mut i: usize = 0;
            while i < args.len()
                invariant
                    i <= args@.len(),
                    out@ + ser_vals(args@, i as int) =~= base + ser_vals(args@, 0),
                decreases args@.len() - i,
            {
                push_val(out, args[i]);
                proof {
                    assert(out@ + ser_vals(args@, i + 1) =~= base + ser_vals(args@, 0));
                }
                i += 1;
            }
            proof {
                assert(out@ =~= base + ser_vals(args@, 0));
            }
        },
    }
    proof {
        assert(final(out)@ =~= old(out)@ + ser_op(op@));
    }
}

/// The serialized form of the instructions of a block, from position `i`
/// on: each instruction is its defined value id followed by its operation.
pub open spec fn ser_insts(s: Seq<crate::instr::InstV>, i: int) -> Seq<u8>
    decreases s.len() - i,
{
    if i < 0 || i >= s.len() {
        Seq::empty()
    } else {
        le8(s[i].id as u64) + ser_op(s[i].op) + ser_insts(s, i + 1)
    }
}

/// The serialized form of the blocks of a function, from position `i` on:
/// each block is its name, its instruction count, and its instructions.
pub open spec fn ser_blocks(s: Seq<crate::instr::BlockV>, i: int) -> Seq<u8>
    decreases s.len() - i,
{
    if i < 0 || i >= s.len() {
        Seq::empty()
    } else {
        le8(s[i].name.len() as u64) + ser_name(s[i].name, 0) + le8(s[i].instrs.len() as u64)
            + ser_insts(s[i].instrs, 0) + ser_blocks(s, i + 1)
    }
}

/// The serialized form of a list of types, from position `i` on.
pub open spec fn ser_tys(s: Seq<Type>, i: int) -> Seq<u8>
    decreases s.len() - i,
{
    if i < 0 || i >= s.len() {
        Seq::empty()
    } else {
        ser_ty(s[i]) + ser_tys(s, i + 1)
    }
}

/// The serialized form of one function: its name, return type, parameter
/// types, value id budget, and blocks.
pub open spec fn ser_func_one(f: crate::module::FuncDefV) -> Seq<u8> {
    le8(f.name.len() as u64) + ser_name(f.name, 0) + ser_ty(f.ty.ret) + le8(
        f.ty.params.len() as u64,
    ) + ser_tys(f.ty.params, 0) + le8(f.n_values as u64) + le8(f.blocks.len() as u64) + ser_blocks(
        f.blocks,
        0,
    )
}

/// The serialized form of the functions of a module, from position `i` on.
pub open spec fn ser_funcs(s: Seq<crate::module::FuncDefV>, i: int) -> Seq<u8>
    decreases s.len() - i,
{
    if i < 0 || i >= s.len() {
        Seq::empty()
    } else {
        ser_func_one(s[i]) + ser_funcs(s, i + 1)
    }
}

/// The serialized header of a module: its identifier, target and data
/// layout strings.
pub open spec fn ser_module_header(m: ModuleV) -> Seq<u8> {
    le8(m.name.len() as u64) + ser_name(m.name, 0) + le8(m.target.len() as u64) + ser_name(
        m.target,
        0,
    ) + le8(m.data_layout.len() as u64) + ser_name(m.data_layout, 0)
}

/// The serialized form of a module: its header, then its function count
/// and its functions.
pub open spec fn spec_bitcode(m: ModuleV) -> Seq<u8> {
    ser_module_header(m) + le8(m.funcs.len() as u64) + ser_funcs(m.funcs, 0)
}

impl Module {
    /// Serialize the module to an in-memory bitcode buffer.
    pub fn write_bitcode_to_memory_buffer(&self) -> (r: Result<MemoryBuffer, Error>)
        ensures
            r matches Ok(mb) && mb@ == spec_bitcode(self@),
    {
        let bytes = self.bitcode_bytes();
        Ok(MemoryBuffer::from_vec(bytes))
    }

    /// Serialize the module to bytes.
    #[verifier::rlimit(100)]
    pub(crate) fn bitcode_bytes(&self) -> (r: Vec<u8>)
        ensures
            r@ == spec_bitcode(self@),
    {
        let mut out: Vec<u8> = Vec::new();
        push_name(&mut out, self.name_ref().as_str());
        push_name(&mut out, self.target_ref().as_str());
        push_name(&mut out, self.data_layout_ref().as_str());
        let nf: usize = self.function_count();
        push_word(&mut out, nf as u64);
        let ghost base = out@;
        let ghost fs = self@.funcs;
        let mut fi: usize = 0;
        while fi < nf
            invariant
                fi <= nf,
                nf == self@.funcs.len(),
                fs == self@.funcs,
                out@ + ser_funcs(fs, fi as int) =~= base + ser_funcs(fs, 0),
            decreases nf - fi,
        {
            push_name(&mut out, self.func_name_ref(fi).as_str());
            let ft = self.func_ty_at(fi);
            let ret = match ft.return_type() {
                Ok(t) => t,
                Err(_) => Type::Void,
            };
            push_ty(&mut out, ret);
            let params = ft.params();
            push_word(&mut out, params.len() as u64);
            let ghost pbase = out@;
            let mut pi: usize = 0;
            while pi < params.len()
                invariant
                    pi <= params@.len(),
                    out@ + ser_tys(params@, pi as int) =~= pbase + ser_tys(params@, 0),
                decreases params@.len() - pi,
            {
                push_ty(&mut out, params[pi]);
                proof {
                    assert(out@ + ser_tys(params@, pi + 1) =~= pbase + ser_tys(params@, 0));
                }
                pi += 1;
            }
            proof {
                assert(out@ =~= pbase + ser_tys(params@, 0));
            }
            push_word(&mut out, self.n_values_of(fi) as u64);
            let nb: usize = self.n_blocks(fi);
            push_word(&mut out, nb as u64);
            let ghost bbase = out@;
            let ghost blocks = self@.funcs[fi as int].blocks;
            let mut bi: usize = 0;
            while bi < nb
                invariant
                    bi <= nb,
                    fi < self@.funcs.len(),
                    nb == self@.funcs[fi as int].blocks.len(),
                    blocks == self@.funcs[fi as int].blocks,
                    out@ + ser_blocks(blocks, bi as int) =~= bbase + ser_blocks(blocks, 0),
                decreases nb - bi,
            {
                push_name(&mut out, self.block_name_ref(fi, bi).as_str());
                let ni: usize = self.n_instrs(fi, bi);
                push_word(&mut out, ni as u64);
                let ghost ibase = out@;
                let ghost insts = self@.funcs[fi as int].blocks[bi as int].instrs;
                let mut ii: usize = 0;
                while ii < ni
                    invariant
                        ii <= ni,
                        fi < self@.funcs.len(),
                        bi < self@.funcs[fi as int].blocks.len(),
                        ni == self@.funcs[fi as int].blocks[bi as int].instrs.len(),
                        insts == self@.funcs[fi as int].blocks[bi as int].instrs,
                        out@ + ser_insts(insts, ii as int) =~= ibase + ser_insts(insts, 0),
                    decreases ni - ii,
                {
                    let inst = self.instr_at(fi, bi, ii);
                    push_word(&mut out, inst.id as u64);
                    push_op(&mut out, &inst.op);
                    proof {
                        assert(out@ + ser_insts(insts, ii + 1) =~= ibase + ser_insts(insts, 0));
                    }
                    ii += 1;
                }
                proof {
                    assert(out@ =~= ibase + ser_insts(insts, 0));
                    assert(out@ + ser_blocks(blocks, bi + 1) =~= bbase + ser_blocks(blocks, 0));
                }
                bi += 1;
            }
            proof {
                assert(out@ =~= bbase + ser_blocks(blocks, 0));
                assert(out@ + ser_funcs(fs, fi + 1) =~= base + ser_funcs(fs, 0));
            }
            fi += 1;
        }
        proof {
            assert(out@ =~= base + ser_funcs(fs, 0));
            assert(out@ =~= spec_bitcode(self@));
        }
        out
    }
}

/// An object-code carrier: the bytes a codegen session works from.
#[derive(Debug)]
pub struct Binary {
    data: Vec<u8>,
}

impl View for Binary {
    type V = Seq<u8>;

    closed spec fn view(&self) -> Seq<u8> {
        self.data@
    }
}

impl Binary {
    /// Create a binary over the bytes of a memory buffer, scoped to the
    /// given context.
    pub fn new(_ctx: &Context, buf: MemoryBuffer) -> (r: Result<Binary, Error>)
        ensures
            r matches Ok(b) && b@ == buf@,
    {
        Ok(Binary { data: buf.into_vec() })
    }

    /// The held bytes.
    pub fn as_slice(&self) -> (r: &Vec<u8>)
        ensures
            r@ == self@,
    {
        &self.data
    }

    /// Consume the binary, returning its bytes.
    pub fn into_vec(self) -> (r: Vec<u8>)
        ensures
            r@ == self@,
    {
        self.data
    }
}

/// Mathematical model of a [`Codegen`] result.
#[verifier::ext_equal]
pub struct CodegenV {
    /// The compiled artifact's bytes.
    pub artifact: Seq<u8>,
    /// The names of all functions defined in the source module, in order.
    pub symbols: Seq<Seq<char>>,
    /// The names marked as must-preserve for the optimizer.
    pub preserved: Seq<Seq<char>>,
}

/// A finished compilation: an immutable artifact together with the
/// ordered list of symbol names defined in the source module.
#[derive(Debug)]
pub struct Codegen {
    artifact: Vec<u8>,
    symbols: Vec<String>,
    preserved: Vec<String>,
}

impl View for Codegen {
    type V = CodegenV;

    closed spec fn view(&self) -> CodegenV {
        CodegenV {
            artifact: self.artifact@,
            symbols: self.symbols@.map_values(|s: String| s@),
            preserved: self.preserved@.map_values(|s: String| s@),
        }
    }
}

/// What a successful compilation of module `m` with the requested export
/// list `exports` yields: the artifact is the module's serialized form,
/// the symbol list is the complete, ordered list of the module's function
/// names — a superset of the requested exports — and exactly the
/// requested names are marked as preserved.
pub open spec fn codegen_ok(m: ModuleV, exports: Seq<Seq<char>>, cg: CodegenV) -> bool {
    &&& cg.artifact == spec_bitcode(m)
    &&& cg.symbols == m.funcs.map_values(|f: crate::module::FuncDefV| f.name)
    &&& cg.preserved == exports
}

impl Codegen {
    /// Compile a finished module with a restricted export surface.
    ///
    /// The module is verified, serialized to an in-memory buffer, and
    /// compiled with every name in `symbols` marked as must-preserve:
    /// definitions outside that list stay eligible for removal by an
    /// optimizer, but the returned symbol list always covers every
    /// function defined in the module.  A malformed module surfaces as a
    /// diagnostic-carrying error.  The whole pipeline is a function of
    /// the module and the export list alone, so overlapping compilations
    /// serialize without interference.
    pub fn new(module: &Module, symbols: &Vec<String>) -> (r: Result<Codegen, Error>)
        ensures
            module_wf(module@) <==> r is Ok,
            r matches Ok(cg) ==> codegen_ok(
                module@,
                symbols@.map_values(|s: String| s@),
                cg@,
            ),
            r matches Err(e) ==> e is Message,
    {
        match module.verify() {
            Ok(_) => (),
            Err(e) => {
                return Err(e);
            },
        };
        let buf = match module.write_bitcode_to_memory_buffer() {
            Ok(b) => b,
            Err(e) => {
                return Err(e);
            },
        };
        let context = match module.context() {
            Ok(c) => c,
            Err(e) => {
                return Err(e);
            },
        };
        let bin = match Binary::new(&context, buf) {
            Ok(b) => b,
            Err(e) => {
                return Err(e);
            },
        };
        let mut preserved: Vec<String> = Vec::new();
        let mut si: usize = 0;
        while si < symbols.len()
            invariant
                si <= symbols@.len(),
                preserved@.len() == si,
                forall|j: int| 0 <= j < si ==> preserved@[j] == symbols@[j],
            decreases symbols@.len() - si,
        {
            preserved.push(symbols[si].clone());
            si += 1;
        }
        let mut names: Vec<String> = Vec::new();
        let nf: usize = module.function_count();
        let mut fi: usize = 0;
        while fi < nf
            invariant
                fi <= nf,
                nf == module@.funcs.len(),
                names@.len() == fi,
                forall|j: int| 0 <= j < fi ==> (#[trigger] names@[j])@ == module@.funcs[j].name,
            decreases nf - fi,
        {
            let f = match module.function_name_at(fi) {
                Ok(n) => n,
                Err(_) => {
                    return Err(
                        Error::Message(Message::from_raw(String::from_str("symbol listing failed"))),
                    );
                },
            };
            names.push(f);
            fi += 1;
        }
        let cg = Codegen { artifact: bin.into_vec(), symbols: names, preserved };
        proof {
            assert(cg@.symbols =~= module@.funcs.map_values(|f: crate::module::FuncDefV| f.name));
            assert(cg@.preserved =~= symbols@.map_values(|s: String| s@));
        }
        Ok(cg)
    }

    /// The names of all functions defined in the source module, in order.
    pub fn symbols(&self) -> (r: &Vec<String>)
        ensures
            r@.map_values(|s: String| s@) == self@.symbols,
    {
        &self.symbols
    }

    /// The compiled artifact's bytes.
    pub fn as_slice(&self) -> (r: &Vec<u8>)
        ensures
            r@ == self@.artifact,
    {
        &self.artifact
    }

    /// Consume the compilation, returning the artifact's bytes.
    pub fn into_vec(self) -> (r: Vec<u8>)
        ensures
            r@ == self@.artifact,
    {
        self.artifact
    }
}

/// The symbol list of a successful compilation names every function the
/// module defines, in definition order, whatever export surface was
/// requested: the requested exports restrict what must stay callable, not
/// what is reported.
pub proof fn lemma_codegen_symbols_complete(
    m: ModuleV,
    exports: Seq<Seq<char>>,
    cg: CodegenV,
)
    requires
        codegen_ok(m, exports, cg),
    ensures
        cg.symbols.len() == m.funcs.len(),
        forall|i: int| 0 <= i < m.funcs.len() ==> cg.symbols[i] == (#[trigger] m.funcs[i]).name,
{
}

/// Compilation has no hidden shared state: any two successful
/// compilations of one module — whatever export lists they requested and
/// in whatever order they ran — produce the same artifact and the same
/// symbol list, exactly as a sequential execution would have.
pub proof fn lemma_codegen_deterministic(
    m: ModuleV,
    exports1: Seq<Seq<char>>,
    exports2: Seq<Seq<char>>,
    cg1: CodegenV,
    cg2: CodegenV,
)
    requires
        codegen_ok(m, exports1, cg1),
        codegen_ok(m, exports2, cg2),
    ensures
        cg1.artifact == cg2.artifact,
        cg1.symbols == cg2.symbols,
{
}

/// The word starting at byte `p`, little endian.
pub open spec fn word_at(s: Seq<u8>, p: int) -> u64 {
    (s[p] as u64) | ((s[p + 1] as u64) << 8u64) | ((s[p + 2] as u64) << 16u64) | ((s[p + 3] as u64)
        << 24u64) | ((s[p + 4] as u64) << 32u64) | ((s[p + 5] as u64) << 40u64) | ((s[p + 6] as u64)
        << 48u64) | ((s[p + 7] as u64) << 56u64)
}

/// Read one word; nothing when fewer than eight bytes remain.
pub open spec fn spec_rd_word(s: Seq<u8>, p: int) -> Option<(u64, int)> {
    if 0 <= p && p + 8 <= s.len() {
        Option::Some((word_at(s, p), p + 8))
    } else {
        Option::None
    }
}

/// Read one word that must fit a size; nothing when it does not.
pub open spec fn spec_rd_size(s: Seq<u8>, p: int) -> Option<(usize, int)> {
    match spec_rd_word(s, p) {
        Option::Some((w, q)) => if w <= usize::MAX as u64 {
            Option::Some((w as usize, q))
        } else {
            Option::None
        },
        Option::None => Option::None,
    }
}

/// Read one word.
fn rd_word(s: &Vec<u8>, p: usize) -> (r: Option<(u64, usize)>)
    ensures
        r matches Some(x) ==> spec_rd_word(s@, p as int) == Option::Some(
            (x.0, x.1 as int),
        ),
        r is None <==> spec_rd_word(s@, p as int) is None,
{
    if s.len() >= 8 && p <= s.len() - 8 {
        let w: u64 = (s[p] as u64) | ((s[p + 1] as u64) << 8u64) | ((s[p + 2] as u64) << 16u64) | (
        (s[p + 3] as u64) << 24u64) | ((s[p + 4] as u64) << 32u64) | ((s[p + 5] as u64) << 40u64)
            | ((s[p + 6] as u64) << 48u64) | ((s[p + 7] as u64) << 56u64);
        Some((w, p + 8))
    } else {
        None
    }
}

/// Read one word that must fit a size.
fn rd_size(s: &Vec<u8>, p: usize) -> (r: Option<(usize, usize)>)
    ensures
        r matches Some(x) ==> spec_rd_size(s@, p as int) == Option::Some(
            (x.0, x.1 as int),
        ),
        r is None <==> spec_rd_size(s@, p as int) is None,
{
    match rd_word(s, p) {
        Some((w, q)) => {
            if w <= usize::MAX as u64 {
                Some((w as usize, q))
            } else {
                None
            }
        },
        None => None,
    }
}

/// Read a type: a tag word and a width word.
pub open spec fn spec_parse_ty(s: Seq<u8>, p: int) -> Option<(Type, int)> {
    match spec_rd_word(s, p) {
        Option::Some((tag, q)) => match spec_rd_word(s, q) {
            Option::Some((w, q2)) => if tag == 0 {
                Option::Some((Type::Void, q2))
            } else if tag == 1 && w <= u32::MAX as u64 {
                Option::Some((Type::Int { bits: w as u32 }, q2))
            } else if tag == 2 {
                Option::Some((Type::Float, q2))
            } else if tag == 3 {
                Option::Some((Type::Double, q2))
            } else {
                Option::None
            },
            Option::None => Option::None,
        },
        Option::None => Option::None,
    }
}

/// Read a type.
fn parse_ty(s: &Vec<u8>, p: usize) -> (r: Option<(Type, usize)>)
    ensures
        r matches Some(x) ==> spec_parse_ty(s@, p as int) == Option::Some(
            (x.0, x.1 as int),
        ),
        r is None <==> spec_parse_ty(s@, p as int) is None,
{
    match rd_word(s, p) {
        Some((tag, q)) => match rd_word(s, q) {
            Some((w, q2)) => {
                if tag == 0 {
                    Some((Type::Void, q2))
                } else if tag == 1 && w <= u32::MAX as u64 {
                    Some((Type::Int { bits: w as u32 }, q2))
                } else if tag == 2 {
                    Some((Type::Float, q2))
                } else if tag == 3 {
                    Some((Type::Double, q2))
                } else {
                    None
                }
            },
            None => None,
        },
        None => None,
    }
}

/// Read a value: a tag word, two payload words, and its type.
pub open spec fn spec_parse_val(s: Seq<u8>, p: int) -> Option<(Value, int)> {
    match spec_rd_word(s, p) {
        Option::Some((tag, q)) => match spec_rd_word(s, q) {
            Option::Some((x, q2)) => match spec_rd_word(s, q2) {
                Option::Some((y, q3)) => match spec_parse_ty(s, q3) {
                    Option::Some((ty, q4)) => if tag == 0 {
                        Option::Some((Value::Const { ty, bits: x }, q4))
                    } else if tag == 1 && x <= usize::MAX as u64 && y <= usize::MAX as u64 {
                        Option::Some(
                            (Value::Param { func: x as usize, index: y as usize, ty }, q4),
                        )
                    } else if tag == 2 && x <= usize::MAX as u64 {
                        Option::Some((Value::Instr { id: x as usize, ty }, q4))
                    } else {
                        Option::None
                    },
                    Option::None => Option::None,
                },
                Option::None => Option::None,
            },
            Option::None => Option::None,
        },
        Option::None => Option::None,
    }
}

/// Read a value.
fn parse_val(s: &Vec<u8>, p: usize) -> (r: Option<(Value, usize)>)
    ensures
        r matches Some(x) ==> spec_parse_val(s@, p as int) == Option::Some(
            (x.0, x.1 as int),
        ),
        r is None <==> spec_parse_val(s@, p as int) is None,
{
    match rd_word(s, p) {
        Some((tag, q)) => match rd_word(s, q) {
            Some((x, q2)) => match rd_word(s, q2) {
                Some((y, q3)) => match parse_ty(s, q3) {
                    Some((ty, q4)) => {
                        if tag == 0 {
                            Some((Value::Const { ty, bits: x }, q4))
                        } else if tag == 1 && x <= usize::MAX as u64 && y <= usize::MAX as u64 {
                            Some((Value::Param { func: x as usize, index: y as usize, ty }, q4))
                        } else if tag == 2 && x <= usize::MAX as u64 {
                            Some((Value::Instr { id: x as usize, ty }, q4))
                        } else {
                            None
                        }
                    },
                    None => None,
                },
                None => None,
            },
            None => None,
        },
        None => None,
    }
}

/// The integer predicate named by a code.
pub open spec fn spec_icmp_of(w: u64) -> Option<Icmp> {
    if w == 0 {
        Option::Some(Icmp::Eq)
    } else if w == 1 {
        Option::Some(Icmp::Ne)
    } else if w == 2 {
        Option::Some(Icmp::Ugt)
    } else if w == 3 {
        Option::Some(Icmp::Uge)
    } else if w == 4 {
        Option::Some(Icmp::Ult)
    } else if w == 5 {
        Option::Some(Icmp::Ule)
    } else if w == 6 {
        Option::Some(Icmp::Sgt)
    } else if w == 7 {
        Option::Some(Icmp::Sge)
    } else if w == 8 {
        Option::Some(Icmp::Slt)
    } else if w == 9 {
        Option::Some(Icmp::Sle)
    } else {
        Option::None
    }
}

/// The floating point predicate named by a code.
pub open spec fn spec_fcmp_of(w: u64) -> Option<Fcmp> {
    if w == 0 {
        Option::Some(Fcmp::Oeq)
    } else if w == 1 {
        Option::Some(Fcmp::Ogt)
    } else if w == 2 {
        Option::Some(Fcmp::Oge)
    } else if w == 3 {
        Option::Some(Fcmp::Olt)
    } else if w == 4 {
        Option::Some(Fcmp::Ole)
    } else if w == 5 {
        Option::Some(Fcmp::One)
    } else if w == 6 {
        Option::Some(Fcmp::Ord)
    } else if w == 7 {
        Option::Some(Fcmp::Ueq)
    } else if w == 8 {
        Option::Some(Fcmp::Ugt)
    } else if w == 9 {
        Option::Some(Fcmp::Uge)
    } else if w == 10 {
        Option::Some(Fcmp::Ult)
    } else if w == 11 {
        Option::Some(Fcmp::Ule)
    } else if w == 12 {
        Option::Some(Fcmp::Une)
    } else if w == 13 {
        Option::Some(Fcmp::Uno)
    } else {
        Option::None
    }
}

/// The integer predicate named by a code.
fn icmp_of(w: u64) -> (r: Option<Icmp>)
    ensures
        r == spec_icmp_of(w),
{
    if w == 0 {
        Some(Icmp::Eq)
    } else if w == 1 {
        Some(Icmp::Ne)
    } else if w == 2 {
        Some(Icmp::Ugt)
    } else if w == 3 {
        Some(Icmp::Uge)
    } else if w == 4 {
        Some(Icmp::Ult)
    } else if w == 5 {
        Some(Icmp::Ule)
    } else if w == 6 {
        Some(Icmp::Sgt)
    } else if w == 7 {
        Some(Icmp::Sge)
    } else if w == 8 {
        Some(Icmp::Slt)
    } else if w == 9 {
        Some(Icmp::Sle)
    } else {
        None
    }
}

/// The floating point predicate named by a code.
fn fcmp_of(w: u64) -> (r: Option<Fcmp>)
    ensures
        r == spec_fcmp_of(w),
{
    if w == 0 {
        Some(Fcmp::Oeq)
    } else if w == 1 {
        Some(Fcmp::Ogt)
    } else if w == 2 {
        Some(Fcmp::Oge)
    } else if w == 3 {
        Some(Fcmp::Olt)
    } else if w == 4 {
        Some(Fcmp::Ole)
    } else if w == 5 {
        Some(Fcmp::One)
    } else if w == 6 {
        Some(Fcmp::Ord)
    } else if w == 7 {
        Some(Fcmp::Ueq)
    } else if w == 8 {
        Some(Fcmp::Ugt)
    } else if w == 9 {
        Some(Fcmp::Uge)
    } else if w == 10 {
        Some(Fcmp::Ult)
    } else if w == 11 {
        Some(Fcmp::Ule)
    } else if w == 12 {
        Some(Fcmp::Une)
    } else if w == 13 {
        Some(Fcmp::Uno)
    } else {
        None
    }
}

/// Read `n` incoming pairs.
pub open spec fn spec_parse_pairs(s: Seq<u8>, p: int, n: nat) -> Option<
    (Seq<(Value, usize)>, int),
>
    decreases n,
{
    if n == 0 {
        Option::Some((Seq::empty(), p))
    } else {
        match spec_parse_val(s, p) {
            Option::Some((v, q)) => match spec_rd_size(s, q) {
                Option::Some((d, q2)) => match spec_parse_pairs(s, q2, (n - 1) as nat) {
                    Option::Some((rest, q3)) => Option::Some((seq![(v, d)] + rest, q3)),
                    Option::None => Option::None,
                },
                Option::None => Option::None,
            },
            Option::None => Option::None,
        }
    }
}

/// Read `n` incoming pairs.
fn parse_pairs(s: &Vec<u8>, p: usize, n: usize) -> (r: Option<(Vec<(Value, usize)>, usize)>)
    ensures
        r matches Some(x) ==> (spec_parse_pairs(s@, p as int, n as nat) matches Some(y) && x.0@
            == y.0 && x.1 as int == y.1),
        r is None <==> spec_parse_pairs(s@, p as int, n as nat) is None,
    decreases n,
{
    if n == 0 {
        let out: Vec<(Value, usize)> = Vec::new();
        proof {
            assert(out@ =~= Seq::<(Value, usize)>::empty());
        }
        Some((out, p))
    } else {
        match parse_val(s, p) {
            Some((v, q)) => match rd_size(s, q) {
                Some((d, q2)) => match parse_pairs(s, q2, n - 1) {
                    Some((mut rest, q3)) => {
                        let mut out: Vec<(Value, usize)> = Vec::new();
                        out.push((v, d));
                        out.append(&mut rest);
                        proof {
                            let y = spec_parse_pairs(s@, p as int, n as nat);
                            assert(y matches Some(yy) ==> out@ =~= yy.0);
                        }
                        Some((out, q3))
                    },
                    None => None,
                },
                None => None,
            },
            None => None,
        }
    }
}

/// Read `n` argument values.
pub open spec fn spec_parse_argvals(s: Seq<u8>, p: int, n: nat) -> Option<(Seq<Value>, int)>
    decreases n,
{
    if n == 0 {
        Option::Some((Seq::empty(), p))
    } else {
        match spec_parse_val(s, p) {
            Option::Some((v, q)) => match spec_parse_argvals(s, q, (n - 1) as nat) {
                Option::Some((rest, q2)) => Option::Some((seq![v] + rest, q2)),
                Option::None => Option::None,
            },
            Option::None => Option::None,
        }
    }
}

/// Read `n` argument values.
fn parse_argvals(s: &Vec<u8>, p: usize, n: usize) -> (r: Option<(Vec<Value>, usize)>)
    ensures
        r matches Some(x) ==> (spec_parse_argvals(s@, p as int, n as nat) matches Some(y) && x.0@
            == y.0 && x.1 as int == y.1),
        r is None <==> spec_parse_argvals(s@, p as int, n as nat) is None,
    decreases n,
{
    if n == 0 {
        let out: Vec<Value> = Vec::new();
        proof {
            assert(out@ =~= Seq::<Value>::empty());
        }
        Some((out, p))
    } else {
        match parse_val(s, p) {
            Some((v, q)) => match parse_argvals(s, q, n - 1) {
                Some((mut rest, q2)) => {
                    let mut out: Vec<Value> = Vec::new();
                    out.push(v);
                    out.append(&mut rest);
                    proof {
                        let y = spec_parse_argvals(s@, p as int, n as nat);
                        assert(y matches Some(yy) ==> out@ =~= yy.0);
                    }
                    Some((out, q2))
                },
                None => None,
            },
            None => None,
        }
    }
}

/// Read one operation: a tag word and its payload.
pub open spec fn spec_parse_op(s: Seq<u8>, p: int) -> Option<(OpV, int)> {
    match spec_rd_word(s, p) {
        Option::Some((tag, q)) => if tag <= 5 {
            match spec_parse_val(s, q) {
                Option::Some((a, q2)) => match spec_parse_val(s, q2) {
                    Option::Some((b, q3)) => Option::Some(
                        (
                            if tag == 0 {
                                OpV::Add { a, b }
                            } else if tag == 1 {
                                OpV::Sub { a, b }
                            } else if tag == 2 {
                                OpV::Mul { a, b }
                            } else if tag == 3 {
                                OpV::And { a, b }
                            } else if tag == 4 {
                                OpV::Or { a, b }
                            } else {
                                OpV::Xor { a, b }
                            },
                            q3,
                        ),
                    ),
                    Option::None => Option::None,
                },
                Option::None => Option::None,
            }
        } else if tag == 6 {
            match spec_rd_word(s, q) {
                Option::Some((pc, q2)) => match spec_icmp_of(pc) {
                    Option::Some(pred) => match spec_parse_val(s, q2) {
                        Option::Some((a, q3)) => match spec_parse_val(s, q3) {
                            Option::Some((b, q4)) => Option::Some((OpV::Icmp { pred, a, b }, q4)),
                            Option::None => Option::None,
                        },
                        Option::None => Option::None,
                    },
                    Option::None => Option::None,
                },
                Option::None => Option::None,
            }
        } else if tag == 7 {
            match spec_rd_word(s, q) {
                Option::Some((pc, q2)) => match spec_fcmp_of(pc) {
                    Option::Some(pred) => match spec_parse_val(s, q2) {
                        Option::Some((a, q3)) => match spec_parse_val(s, q3) {
                            Option::Some((b, q4)) => Option::Some((OpV::Fcmp { pred, a, b }, q4)),
                            Option::None => Option::None,
                        },
                        Option::None => Option::None,
                    },
                    Option::None => Option::None,
                },
                Option::None => Option::None,
            }
        } else if tag == 8 {
            match spec_parse_ty(s, q) {
                Option::Some((ty, q2)) => match spec_rd_size(s, q2) {
                    Option::Some((n, q3)) => match spec_parse_pairs(s, q3, n as nat) {
                        Option::Some((incoming, q4)) => Option::Some(
                            (OpV::Phi { ty, incoming }, q4),
                        ),
                        Option::None => Option::None,
                    },
                    Option::None => Option::None,
                },
                Option::None => Option::None,
            }
        } else if tag == 9 {
            match spec_rd_size(s, q) {
                Option::Some((dest, q2)) => Option::Some((OpV::Br { dest }, q2)),
                Option::None => Option::None,
            }
        } else if tag == 10 {
            match spec_parse_val(s, q) {
                Option::Some((cond, q2)) => match spec_rd_size(s, q2) {
                    Option::Some((t, q3)) => match spec_rd_size(s, q3) {
                        Option::Some((e, q4)) => Option::Some(
                            (OpV::CondBr { cond, then_dest: t, else_dest: e }, q4),
                        ),
                        Option::None => Option::None,
                    },
                    Option::None => Option::None,
                },
                Option::None => Option::None,
            }
        } else if tag == 11 {
            match spec_rd_word(s, q) {
                Option::Some((has, q2)) => if has == 0 {
                    Option::Some((OpV::Ret { val: Option::None }, q2))
                } else if has == 1 {
                    match spec_parse_val(s, q2) {
                        Option::Some((v, q3)) => Option::Some(
                            (OpV::Ret { val: Option::Some(v) }, q3),
                        ),
                        Option::None => Option::None,
                    }
                } else {
                    Option::None
                },
                Option::None => Option::None,
            }
        } else if tag == 12 {
            match spec_rd_size(s, q) {
                Option::Some((func, q2)) => match spec_rd_size(s, q2) {
                    Option::Some((n, q3)) => match spec_parse_argvals(s, q3, n as nat) {
                        Option::Some((args, q4)) => Option::Some((OpV::Call { func, args }, q4)),
                        Option::None => Option::None,
                    },
                    Option::None => Option::None,
                },
                Option::None => Option::None,
            }
        } else {
            Option::None
        },
        Option::None => Option::None,
    }
}

/// Read one operation.
#[verifier::rlimit(60)]
fn parse_op(s: &Vec<u8>, p: usize) -> (r: Option<(Op, usize)>)
    ensures
        r matches Some(x) ==> (spec_parse_op(s@, p as int) matches Some(y) && x.0@ == y.0 && x.1
            as int == y.1),
        r is None <==> spec_parse_op(s@, p as int) is None,
{
    match rd_word(s, p) {
        Some((tag, q)) => {
            if tag <= 5 {
                match parse_val(s, q) {
                    Some((a, q2)) => match parse_val(s, q2) {
                        Some((b, q3)) => {
                            let op = if tag == 0 {
                                Op::Add { a, b }
                            } else if tag == 1 {
                                Op::Sub { a, b }
                            } else if tag == 2 {
                                Op::Mul { a, b }
                            } else if tag == 3 {
                                Op::And { a, b }
                            } else if tag == 4 {
                                Op::Or { a, b }
                            } else {
                                Op::Xor { a, b }
                            };
                            Some((op, q3))
                        },
                        None => None,
                    },
                    None => None,
                }
            } else if tag == 6 {
                match rd_word(s, q) {
                    Some((pc, q2)) => match icmp_of(pc) {
                        Some(pred) => match parse_val(s, q2) {
                            Some((a, q3)) => match parse_val(s, q3) {
                                Some((b, q4)) => Some((Op::Icmp { pred, a, b }, q4)),
                                None => None,
                            },
                            None => None,
                        },
                        None => None,
                    },
                    None => None,
                }
            } else if tag == 7 {
                match rd_word(s, q) {
                    Some((pc, q2)) => match fcmp_of(pc) {
                        Some(pred) => match parse_val(s, q2) {
                            Some((a, q3)) => match parse_val(s, q3) {
                                Some((b, q4)) => Some((Op::Fcmp { pred, a, b }, q4)),
                                None => None,
                            },
                            None => None,
                        },
                        None => None,
                    },
                    None => None,
                }
            } else if tag == 8 {
                match parse_ty(s, q) {
                    Some((ty, q2)) => match rd_size(s, q2) {
                        Some((n, q3)) => match parse_pairs(s, q3, n) {
                            Some((incoming, q4)) => Some((Op::Phi { ty, incoming }, q4)),
                            None => None,
                        },
                        None => None,
                    },
                    None => None,
                }
            } else if tag == 9 {
                match rd_size(s, q) {
                    Some((dest, q2)) => Some((Op::Br { dest }, q2)),
                    None => None,
                }
            } else if tag == 10 {
                match parse_val(s, q) {
                    Some((cond, q2)) => match rd_size(s, q2) {
                        Some((t, q3)) => match rd_size(s, q3) {
                            Some((e, q4)) => Some(
                                (Op::CondBr { cond, then_dest: t, else_dest: e }, q4),
                            ),
                            None => None,
                        },
                        None => None,
                    },
                    None => None,
                }
            } else if tag == 11 {
                match rd_word(s, q) {
                    Some((has, q2)) => {
                        if has == 0 {
                            Some((Op::Ret { val: None }, q2))
                        } else if has == 1 {
                            match parse_val(s, q2) {
                                Some((v, q3)) => Some((Op::Ret { val: Some(v) }, q3)),
                                None => None,
                            }
                        } else {
                            None
                        }
                    },
                    None => None,
                }
            } else if tag == 12 {
                match rd_size(s, q) {
                    Some((func, q2)) => match rd_size(s, q2) {
                        Some((n, q3)) => match parse_argvals(s, q3, n) {
                            Some((args, q4)) => Some((Op::Call { func, args }, q4)),
                            None => None,
                        },
                        None => None,
                    },
                    None => None,
                }
            } else {
                None
            }
        },
        None => None,
    }
}

/// Read `n` characters of a name.
pub open spec fn spec_parse_name(s: Seq<u8>, p: int, n: nat) -> Option<(Seq<char>, int)>
    decreases n,
{
    if n == 0 {
        Option::Some((Seq::empty(), p))
    } else {
        match spec_rd_word(s, p) {
            Option::Some((w, q)) => if w < 0xD800 || (0xE000 <= w && w <= 0x10FFFF) {
                match spec_parse_name(s, q, (n - 1) as nat) {
                    Option::Some((rest, q2)) => Option::Some((seq![w as char] + rest, q2)),
                    Option::None => Option::None,
                }
            } else {
                Option::None
            },
            Option::None => Option::None,
        }
    }
}

/// A character's scalar value is no surrogate, at most the largest
/// scalar, and converts back to the same character.
proof fn lemma_char_scalar(c: char)
    ensures
        (c as u64) < 0xD800 || (0xE000 <= (c as u64) && (c as u64) <= 0x10FFFF),
        ((c as u64) as char) == c,
        c as u32 == c as u64,
{
}

/// A word carrying a valid scalar value converts to the character with
/// that value.
proof fn lemma_word_scalar(c: char, w: u64)
    requires
        w <= 0x10FFFF,
        c as u32 == w as u32,
    ensures
        c == (w as char),
        c as u64 == w,
{
}

/// Read `n` characters of a name.
fn parse_name(s: &Vec<u8>, p: usize, n: usize) -> (r: Option<(String, usize)>)
    ensures
        r matches Some(x) ==> (spec_parse_name(s@, p as int, n as nat) matches Some(y) && x.0@
            == y.0 && x.1 as int == y.1),
        r is None <==> spec_parse_name(s@, p as int, n as nat) is None,
    decreases n,
{
    if n == 0 {
        let cur = String::new();
        proof {
            assert(cur@ =~= Seq::<char>::empty());
        }
        Some((cur, p))
    } else {
        match rd_word(s, p) {
            Some((w, q)) => {
                if w < 0xD800 || (0xE000 <= w && w <= 0x10FFFF) {
                    let c: char = match char::from_u32(w as u32) {
                        Some(c) => c,
                        None => {
                            proof {
                                assert(false);
                            }
                            return None;
                        },
                    };
                    match parse_name(s, q, n - 1) {
                        Some((rest, q2)) => {
                            let mut cur = String::new();
                            cur.push(c);
                            cur.append(rest.as_str());
                            proof {
                                assert(w <= 0x10FFFF);
                                lemma_word_scalar(c, w);
                                let y = spec_parse_name(s@, p as int, n as nat);
                                assert(y matches Some(yy) ==> cur@ =~= yy.0);
                            }
                            Some((cur, q2))
                        },
                        None => None,
                    }
                } else {
                    None
                }
            },
            None => None,
        }
    }
}

/// Read `n` instructions.
pub open spec fn spec_parse_insts(s: Seq<u8>, p: int, n: nat) -> Option<
    (Seq<crate::instr::InstV>, int),
>
    decreases n,
{
    if n == 0 {
        Option::Some((Seq::empty(), p))
    } else {
        match spec_rd_size(s, p) {
            Option::Some((id, q)) => match spec_parse_op(s, q) {
                Option::Some((op, q2)) => match spec_parse_insts(s, q2, (n - 1) as nat) {
                    Option::Some((rest, q3)) => Option::Some(
                        (seq![crate::instr::InstV { id, op }] + rest, q3),
                    ),
                    Option::None => Option::None,
                },
                Option::None => Option::None,
            },
            Option::None => Option::None,
        }
    }
}

/// Read `n` instructions.
fn parse_insts(s: &Vec<u8>, p: usize, n: usize) -> (r: Option<(Vec<crate::instr::Inst>, usize)>)
    ensures
        r matches Some(x) ==> (spec_parse_insts(s@, p as int, n as nat) matches Some(y)
            && x.0@.map_values(|i: crate::instr::Inst| i@) == y.0 && x.1 as int == y.1),
        r is None <==> spec_parse_insts(s@, p as int, n as nat) is None,
    decreases n,
{
    if n == 0 {
        let out: Vec<crate::instr::Inst> = Vec::new();
        proof {
            assert(out@.map_values(|i: crate::instr::Inst| i@) =~= Seq::<
                crate::instr::InstV,
            >::empty());
        }
        Some((out, p))
    } else {
        match rd_size(s, p) {
            Some((id, q)) => match parse_op(s, q) {
                Some((op, q2)) => match parse_insts(s, q2, n - 1) {
                    Some((mut rest, q3)) => {
                        let mut out: Vec<crate::instr::Inst> = Vec::new();
                        out.push(crate::instr::Inst { id, op });
                        out.append(&mut rest);
                        proof {
                            let y = spec_parse_insts(s@, p as int, n as nat);
                            assert(y matches Some(yy) ==> out@.map_values(
                                |i: crate::instr::Inst| i@,
                            ) =~= yy.0);
                        }
                        Some((out, q3))
                    },
                    None => None,
                },
                None => None,
            },
            None => None,
        }
    }
}

/// Read `n` blocks, each a name, an instruction count, and its
/// instructions.
pub open spec fn spec_parse_blocks(s: Seq<u8>, p: int, n: nat) -> Option<
    (Seq<crate::instr::BlockV>, int),
>
    decreases n,
{
    if n == 0 {
        Option::Some((Seq::empty(), p))
    } else {
        match spec_rd_size(s, p) {
            Option::Some((nc, q0)) => match spec_parse_name(s, q0, nc as nat) {
                Option::Some((name, q1)) => match spec_rd_size(s, q1) {
                    Option::Some((ni, q)) => match spec_parse_insts(s, q, ni as nat) {
                        Option::Some((instrs, q2)) => match spec_parse_blocks(
                            s,
                            q2,
                            (n - 1) as nat,
                        ) {
                            Option::Some((rest, q3)) => Option::Some(
                                (seq![crate::instr::BlockV { name, instrs }] + rest, q3),
                            ),
                            Option::None => Option::None,
                        },
                        Option::None => Option::None,
                    },
                    Option::None => Option::None,
                },
                Option::None => Option::None,
            },
            Option::None => Option::None,
        }
    }
}

/// Read `n` blocks.
fn parse_blocks(s: &Vec<u8>, p: usize, n: usize) -> (r: Option<(Vec<crate::instr::Block>, usize)>)
    ensures
        r matches Some(x) ==> (spec_parse_blocks(s@, p as int, n as nat) matches Some(y)
            && x.0@.map_values(|b: crate::instr::Block| b@) == y.0 && x.1 as int == y.1),
        r is None <==> spec_parse_blocks(s@, p as int, n as nat) is None,
    decreases n,
{
    if n == 0 {
        let out: Vec<crate::instr::Block> = Vec::new();
        proof {
            assert(out@.map_values(|b: crate::instr::Block| b@) =~= Seq::<
                crate::instr::BlockV,
            >::empty());
        }
        Some((out, p))
    } else {
        match rd_size(s, p) {
            Some((nc, q0)) => match parse_name(s, q0, nc) {
                Some((name, q1)) => match rd_size(s, q1) {
                    Some((ni, q)) => match parse_insts(s, q, ni) {
                        Some((instrs, q2)) => match parse_blocks(s, q2, n - 1) {
                            Some((mut rest, q3)) => {
                                let mut out: Vec<crate::instr::Block> = Vec::new();
                                out.push(crate::instr::Block { name, instrs });
                                out.append(&mut rest);
                                proof {
                                    let y = spec_parse_blocks(s@, p as int, n as nat);
                                    assert(y matches Some(yy) ==> out@.map_values(
                                        |b: crate::instr::Block| b@,
                                    ) =~= yy.0);
                                }
                                Some((out, q3))
                            },
                            None => None,
                        },
                        None => None,
                    },
                    None => None,
                },
                None => None,
            },
            None => None,
        }
    }
}

/// Read `n` types.
pub open spec fn spec_parse_tys(s: Seq<u8>, p: int, n: nat) -> Option<(Seq<Type>, int)>
    decreases n,
{
    if n == 0 {
        Option::Some((Seq::empty(), p))
    } else {
        match spec_parse_ty(s, p) {
            Option::Some((t, q)) => match spec_parse_tys(s, q, (n - 1) as nat) {
                Option::Some((rest, q2)) => Option::Some((seq![t] + rest, q2)),
                Option::None => Option::None,
            },
            Option::None => Option::None,
        }
    }
}

/// Read `n` types.
fn parse_tys(s: &Vec<u8>, p: usize, n: usize) -> (r: Option<(Vec<Type>, usize)>)
    ensures
        r matches Some(x) ==> (spec_parse_tys(s@, p as int, n as nat) matches Some(y) && x.0@
            == y.0 && x.1 as int == y.1),
        r is None <==> spec_parse_tys(s@, p as int, n as nat) is None,
    decreases n,
{
    if n == 0 {
        let out: Vec<Type> = Vec::new();
        proof {
            assert(out@ =~= Seq::<Type>::empty());
        }
        Some((out, p))
    } else {
        match parse_ty(s, p) {
            Some((t, q)) => match parse_tys(s, q, n - 1) {
                Some((mut rest, q2)) => {
                    let mut out: Vec<Type> = Vec::new();
                    out.push(t);
                    out.append(&mut rest);
                    proof {
                        let y = spec_parse_tys(s@, p as int, n as nat);
                        assert(y matches Some(yy) ==> out@ =~= yy.0);
                    }
                    Some((out, q2))
                },
                None => None,
            },
            None => None,
        }
    }
}

/// Read `n` function definitions, each a name, a type, a value id
/// budget, and its blocks.
pub open spec fn spec_parse_funcs(s: Seq<u8>, p: int, n: nat) -> Option<
    (Seq<crate::module::FuncDefV>, int),
>
    decreases n,
{
    if n == 0 {
        Option::Some((Seq::empty(), p))
    } else {
        match spec_parse_counted_name(s, p) {
            Option::Some((name, p1)) => match spec_parse_func_rest(s, p1, name) {
                Option::Some((fd, q6)) => match spec_parse_funcs(s, q6, (n - 1) as nat) {
                    Option::Some((rest, q7)) => Option::Some((seq![fd] + rest, q7)),
                    Option::None => Option::None,
                },
                Option::None => Option::None,
            },
            Option::None => Option::None,
        }
    }
}

/// Read a counted name: its character count and its characters.
pub open spec fn spec_parse_counted_name(s: Seq<u8>, p: int) -> Option<(Seq<char>, int)> {
    match spec_rd_size(s, p) {
        Option::Some((nc, q0)) => spec_parse_name(s, q0, nc as nat),
        Option::None => Option::None,
    }
}

/// Read the rest of one function definition after its name.
pub open spec fn spec_parse_func_rest(s: Seq<u8>, p: int, name: Seq<char>) -> Option<
    (crate::module::FuncDefV, int),
> {
    match spec_parse_ty(s, p) {
        Option::Some((ret, q)) => match spec_rd_size(s, q) {
            Option::Some((np, q2)) => match spec_parse_tys(s, q2, np as nat) {
                Option::Some((params, q3)) => match spec_rd_size(s, q3) {
                    Option::Some((nv, q4)) => match spec_rd_size(s, q4) {
                        Option::Some((nb, q5)) => match spec_parse_blocks(s, q5, nb as nat) {
                            Option::Some((blocks, q6)) => Option::Some(
                                (
                                    crate::module::FuncDefV {
                                        name,
                                        ty: crate::module::FuncTypeV { ret, params },
                                        blocks,
                                        n_values: nv,
                                    },
                                    q6,
                                ),
                            ),
                            Option::None => Option::None,
                        },
                        Option::None => Option::None,
                    },
                    Option::None => Option::None,
                },
                Option::None => Option::None,
            },
            Option::None => Option::None,
        },
        Option::None => Option::None,
    }
}

/// Read a counted name.
fn parse_counted_name(s: &Vec<u8>, p: usize) -> (r: Option<(String, usize)>)
    ensures
        r matches Some(x) ==> (spec_parse_counted_name(s@, p as int) matches Some(y) && x.0@
            == y.0 && x.1 as int == y.1),
        r is None <==> spec_parse_counted_name(s@, p as int) is None,
{
    match rd_size(s, p) {
        Some((nc, q0)) => parse_name(s, q0, nc),
        None => None,
    }
}

/// Read `n` function definitions.
fn parse_funcs(s: &Vec<u8>, p: usize, n: usize) -> (r: Option<
    (Vec<crate::module::FuncDef>, usize),
>)
    ensures
        r matches Some(x) ==> (spec_parse_funcs(s@, p as int, n as nat) matches Some(y)
            && x.0@.map_values(|f: crate::module::FuncDef| f@) == y.0 && x.1 as int == y.1),
        r is None <==> spec_parse_funcs(s@, p as int, n as nat) is None,
    decreases n,
{
    if n == 0 {
        let out: Vec<crate::module::FuncDef> = Vec::new();
        proof {
            assert(out@.map_values(|f: crate::module::FuncDef| f@) =~= Seq::<
                crate::module::FuncDefV,
            >::empty());
        }
        Some((out, p))
    } else {
        match rd_size(s, p) {
            Some((nc, p0)) => match parse_name(s, p0, nc) {
                Some((name, p1)) => match parse_ty(s, p1) {
                    Some((ret, q)) => match rd_size(s, q) {
                        Some((np, q2)) => match parse_tys(s, q2, np) {
                            Some((params, q3)) => match rd_size(s, q3) {
                                Some((nv, q4)) => match rd_size(s, q4) {
                                    Some((nb, q5)) => match parse_blocks(s, q5, nb) {
                                        Some((blocks, q6)) => match parse_funcs(s, q6, n - 1) {
                                            Some((mut rest, q7)) => {
                                                let ft = crate::module::functype_raw(ret, params);
                                                let fd = crate::module::funcdef_raw(
                                                    name,
                                                    ft,
                                                    blocks,
                                                    nv,
                                                );
                                                let mut out: Vec<crate::module::FuncDef> =
                                                    Vec::new();
                                                out.push(fd);
                                                out.append(&mut rest);
                                                proof {
                                                    let y = spec_parse_funcs(
                                                        s@,
                                                        p as int,
                                                        n as nat,
                                                    );
                                                    assert(y matches Some(yy) ==> out@.map_values(
                                                        |f: crate::module::FuncDef| f@,
                                                    ) =~= yy.0);
                                                }
                                                Some((out, q7))
                                            },
                                            None => None,
                                        },
                                        None => None,
                                    },
                                    None => None,
                                },
                                None => None,
                            },
                            None => None,
                        },
                        None => None,
                    },
                    None => None,
                },
                None => None,
            },
            None => None,
        }
    }
}

/// Read a whole module image: the identifier, target and data layout
/// strings, then the function count and exactly that many functions,
/// consuming the buffer completely.
pub open spec fn spec_parse_module(s: Seq<u8>) -> Option<
    (Seq<char>, Seq<char>, Seq<char>, Seq<crate::module::FuncDefV>),
> {
    match spec_parse_counted_name(s, 0) {
        Option::Some((name, p1)) => match spec_parse_counted_name(s, p1) {
            Option::Some((target, p2)) => match spec_parse_counted_name(s, p2) {
                Option::Some((layout, p3)) => match spec_rd_size(s, p3) {
                    Option::Some((nf, p4)) => match spec_parse_funcs(s, p4, nf as nat) {
                        Option::Some((funcs, q)) => if q == s.len() {
                            Option::Some((name, target, layout, funcs))
                        } else {
                            Option::None
                        },
                        Option::None => Option::None,
                    },
                    Option::None => Option::None,
                },
                Option::None => Option::None,
            },
            Option::None => Option::None,
        },
        Option::None => Option::None,
    }
}

impl Module {
    /// Re-materialize a module from its serialized bitcode inside the
    /// given context; nothing when the buffer is not a complete module
    /// image.  The rebuilt module is free and carries the serialized
    /// identifier, target, data layout, and function definitions with
    /// their names.
    pub fn parse_bitcode(ctx: &Context, mem_buf: &MemoryBuffer) -> (r: Option<Module>)
        ensures
            r matches Some(m) ==> (spec_parse_module(mem_buf@) matches Some(t) && m@ == (ModuleV {
                handle: m@.handle,
                ctx: ctx@.handle,
                name: t.0,
                target: t.1,
                data_layout: t.2,
                funcs: t.3,
                state: crate::module::OwnState::Free,
            })),
            r is None <==> spec_parse_module(mem_buf@) is None,
    {
        let s = mem_buf.as_slice();
        match parse_counted_name(s, 0) {
            Some((name, p1)) => match parse_counted_name(s, p1) {
                Some((target, p2)) => match parse_counted_name(s, p2) {
                    Some((layout, p3)) => match rd_size(s, p3) {
                        Some((nf, p4)) => match parse_funcs(s, p4, nf) {
                            Some((funcs, q)) => {
                                if q == s.len() {
                                    let handle = match crate::handle::wrap_inner(
                                        crate::module::MODULE_ADDR,
                                    ) {
                                        Ok(h) => h,
                                        Err(_) => {
                                            proof {
                                                assert(false);
                                            }
                                            return None;
                                        },
                                    };
                                    Some(
                                        crate::module::module_raw(
                                            handle,
                                            ctx.handle(),
                                            name,
                                            target,
                                            layout,
                                            funcs,
                                        ),
                                    )
                                } else {
                                    None
                                }
                            },
                            None => None,
                        },
                        None => None,
                    },
                    None => None,
                },
                None => None,
            },
            None => None,
        }
    }
}

/// Whether chunk `c` lies at position `p` of buffer `s`.
pub open spec fn bytes_at(s: Seq<u8>, p: int, c: Seq<u8>) -> bool {
    0 <= p && p + c.len() <= s.len() && s.subrange(p, p + c.len() as int) == c
}

/// A chunk made of two parts lies where both parts lie in order.
proof fn lemma_bytes_at_split(s: Seq<u8>, p: int, a: Seq<u8>, b: Seq<u8>)
    requires
        bytes_at(s, p, a + b),
    ensures
        bytes_at(s, p, a),
        bytes_at(s, p + a.len(), b),
{
    assert forall|i: int| 0 <= i < (a + b).len() implies s[p + i] == (a + b)[i] by {
        assert(s.subrange(p, p + (a + b).len() as int)[i] == (a + b)[i]);
    }
    assert(s.subrange(p, p + a.len() as int) =~= a);
    assert forall|k: int| 0 <= k < b.len() implies s.subrange(
        p + a.len(),
        p + a.len() + b.len() as int,
    )[k] == b[k] by {
        assert(s[p + a.len() + k] == (a + b)[a.len() + k]);
        assert((a + b)[a.len() + k] == b[k]);
    }
    assert(s.subrange(p + a.len(), p + a.len() + b.len() as int) =~= b);
}

/// Reading a word where its little-endian bytes lie yields that word.
proof fn lemma_rd_word(s: Seq<u8>, p: int, w: u64)
    requires
        bytes_at(s, p, le8(w)),
    ensures
        spec_rd_word(s, p) == Option::Some((w, p + 8)),
{
    assert forall|i: int| 0 <= i < 8 implies s[p + i] == le8(w)[i] by {
        assert(s.subrange(p, p + 8)[i] == le8(w)[i]);
    }
    assert((((w & 0xff) as u8) as u64) | ((((w >> 8u64) & 0xff) as u8) as u64) << 8u64 | ((((w
        >> 16u64) & 0xff) as u8) as u64) << 16u64 | ((((w >> 24u64) & 0xff) as u8) as u64)
        << 24u64 | ((((w >> 32u64) & 0xff) as u8) as u64) << 32u64 | ((((w >> 40u64) & 0xff) as u8)
        as u64) << 40u64 | ((((w >> 48u64) & 0xff) as u8) as u64) << 48u64 | ((((w >> 56u64) & 0xff)
        as u8) as u64) << 56u64 == w) by (bit_vector);
    assert(word_at(s, p) == w);
}

/// Reading a size where the word of an in-range length lies yields it.
proof fn lemma_rd_size(s: Seq<u8>, p: int, n: usize)
    requires
        bytes_at(s, p, le8(n as u64)),
    ensures
        spec_rd_size(s, p) == Option::Some((n, p + 8)),
{
    lemma_rd_word(s, p, n as u64);
}

/// Parsing where a serialized type lies yields that type.
proof fn lemma_rt_ty(s: Seq<u8>, p: int, t: Type)
    requires
        bytes_at(s, p, ser_ty(t)),
    ensures
        spec_parse_ty(s, p) == Option::Some((t, p + ser_ty(t).len())),
{
    match t {
        Type::Void => {
            lemma_bytes_at_split(s, p, le8(0), le8(0));
            lemma_rd_word(s, p, 0);
            lemma_rd_word(s, p + 8, 0);
        },
        Type::Int { bits } => {
            lemma_bytes_at_split(s, p, le8(1), le8(bits as u64));
            lemma_rd_word(s, p, 1);
            lemma_rd_word(s, p + 8, bits as u64);
        },
        Type::Float => {
            lemma_bytes_at_split(s, p, le8(2), le8(0));
            lemma_rd_word(s, p, 2);
            lemma_rd_word(s, p + 8, 0);
        },
        Type::Double => {
            lemma_bytes_at_split(s, p, le8(3), le8(0));
            lemma_rd_word(s, p, 3);
            lemma_rd_word(s, p + 8, 0);
        },
    }
}

/// Parsing where a serialized value lies yields that value.
#[verifier::rlimit(100)]
proof fn lemma_rt_val(s: Seq<u8>, p: int, v: Value)
    requires
        bytes_at(s, p, ser_val(v)),
    ensures
        spec_parse_val(s, p) == Option::Some((v, p + ser_val(v).len())),
{
    match v {
        Value::Const { ty, bits } => {
            lemma_rt_three_words(s, p, 0, bits, 0, ty);
        },
        Value::Param { func, index, ty } => {
            lemma_rt_three_words(s, p, 1, func as u64, index as u64, ty);
        },
        Value::Instr { id, ty } => {
            lemma_rt_three_words(s, p, 2, id as u64, 0, ty);
        },
    }
}

/// Reading three words and a type where their serialized forms lie
/// yields them in order.
proof fn lemma_rt_three_words(s: Seq<u8>, p: int, w0: u64, w1: u64, w2: u64, ty: Type)
    requires
        bytes_at(s, p, le8(w0) + le8(w1) + le8(w2) + ser_ty(ty)),
    ensures
        spec_rd_word(s, p) == Option::Some((w0, p + 8)),
        spec_rd_word(s, p + 8) == Option::Some((w1, p + 16)),
        spec_rd_word(s, p + 16) == Option::Some((w2, p + 24)),
        spec_parse_ty(s, p + 24) == Option::Some((ty, p + 24 + ser_ty(ty).len())),
{
    assert(le8(w0) + le8(w1) + le8(w2) + ser_ty(ty) =~= le8(w0) + (le8(w1) + (le8(w2) + ser_ty(
        ty,
    ))));
    lemma_bytes_at_split(s, p, le8(w0), le8(w1) + (le8(w2) + ser_ty(ty)));
    lemma_rd_word(s, p, w0);
    lemma_bytes_at_split(s, p + 8, le8(w1), le8(w2) + ser_ty(ty));
    lemma_rd_word(s, p + 8, w1);
    lemma_bytes_at_split(s, p + 16, le8(w2), ser_ty(ty));
    lemma_rd_word(s, p + 16, w2);
    lemma_rt_ty(s, p + 24, ty);
}

/// Whether an operation's lists fit in a size, as serialization records
/// them.
pub open spec fn op_bounded(op: OpV) -> bool {
    match op {
        OpV::Phi { incoming, .. } => incoming.len() <= usize::MAX,
        OpV::Call { args, .. } => args.len() <= usize::MAX,
        _ => true,
    }
}

/// Whether a block's name and lists fit in a size.
pub open spec fn block_bounded(b: crate::instr::BlockV) -> bool {
    &&& b.name.len() <= usize::MAX
    &&& b.instrs.len() <= usize::MAX
    &&& forall|j: int| 0 <= j < b.instrs.len() ==> op_bounded((#[trigger] b.instrs[j]).op)
}

/// Whether a function's name and lists fit in a size.
pub open spec fn func_bounded(f: crate::module::FuncDefV) -> bool {
    &&& f.name.len() <= usize::MAX
    &&& f.ty.params.len() <= usize::MAX
    &&& f.blocks.len() <= usize::MAX
    &&& forall|b: int| 0 <= b < f.blocks.len() ==> block_bounded(#[trigger] f.blocks[b])
}

/// Whether a module's strings and lists fit in a size; every module held
/// in memory satisfies this.
pub open spec fn module_bounded(m: ModuleV) -> bool {
    &&& m.name.len() <= usize::MAX
    &&& m.target.len() <= usize::MAX
    &&& m.data_layout.len() <= usize::MAX
    &&& m.funcs.len() <= usize::MAX
    &&& forall|i: int| 0 <= i < m.funcs.len() ==> func_bounded(#[trigger] m.funcs[i])
}

/// Parsing where a serialized name's characters lie yields them.
proof fn lemma_rt_name(s: Seq<u8>, p: int, name: Seq<char>, i: int)
    requires
        0 <= i <= name.len(),
        bytes_at(s, p, ser_name(name, i)),
    ensures
        spec_parse_name(s, p, (name.len() - i) as nat) == Option::Some(
            (name.subrange(i, name.len() as int), p + ser_name(name, i).len()),
        ),
    decreases name.len() - i,
{
    if i == name.len() {
        assert(name.subrange(i, name.len() as int) =~= Seq::<char>::empty());
    } else {
        let c = name[i];
        let rest = ser_name(name, i + 1);
        assert(ser_name(name, i) =~= le8(c as u64) + rest);
        lemma_bytes_at_split(s, p, le8(c as u64), rest);
        lemma_rd_word(s, p, c as u64);
        lemma_char_scalar(c);
        lemma_rt_name(s, p + 8, name, i + 1);
        assert(seq![c] + name.subrange(i + 1, name.len() as int) =~= name.subrange(
            i,
            name.len() as int,
        ));
    }
}

/// Parsing where a serialized counted name lies yields it.
#[verifier::rlimit(100)]
proof fn lemma_rt_counted_name(s: Seq<u8>, p: int, name: Seq<char>)
    requires
        name.len() <= usize::MAX,
        bytes_at(s, p, le8(name.len() as u64) + ser_name(name, 0)),
    ensures
        spec_rd_size(s, p) == Option::Some((name.len() as usize, p + 8)),
        spec_parse_name(s, p + 8, name.len() as nat) == Option::Some(
            (name, p + 8 + ser_name(name, 0).len()),
        ),
        spec_parse_counted_name(s, p) == Option::Some(
            (name, p + 8 + ser_name(name, 0).len()),
        ),
{
    lemma_bytes_at_split(s, p, le8(name.len() as u64), ser_name(name, 0));
    lemma_rd_size(s, p, name.len() as usize);
    lemma_rt_name(s, p + 8, name, 0);
    assert(name.subrange(0, name.len() as int) =~= name);
}

/// Parsing where serialized incoming pairs lie yields those pairs.
#[verifier::rlimit(100)]
proof fn lemma_rt_pairs(s: Seq<u8>, p: int, items: Seq<(Value, usize)>, i: int)
    requires
        0 <= i <= items.len(),
        bytes_at(s, p, ser_pairs(items, i)),
    ensures
        spec_parse_pairs(s, p, (items.len() - i) as nat) == Option::Some(
            (items.subrange(i, items.len() as int), p + ser_pairs(items, i).len()),
        ),
    decreases items.len() - i,
{
    if i == items.len() {
        assert(items.subrange(i, items.len() as int) =~= Seq::<(Value, usize)>::empty());
    } else {
        let v = items[i].0;
        let d = items[i].1;
        let rest = ser_pairs(items, i + 1);
        assert(ser_pairs(items, i) =~= ser_val(v) + (le8(d as u64) + rest));
        lemma_bytes_at_split(s, p, ser_val(v), le8(d as u64) + rest);
        lemma_rt_val(s, p, v);
        let q = p + ser_val(v).len();
        lemma_bytes_at_split(s, q, le8(d as u64), rest);
        lemma_rd_size(s, q, d);
        lemma_rt_pairs(s, q + 8, items, i + 1);
        assert(seq![(v, d)] + items.subrange(i + 1, items.len() as int) =~= items.subrange(
            i,
            items.len() as int,
        ));
    }
}

/// Parsing where serialized argument values lie yields those values.
#[verifier::rlimit(100)]
proof fn lemma_rt_argvals(s: Seq<u8>, p: int, items: Seq<Value>, i: int)
    requires
        0 <= i <= items.len(),
        bytes_at(s, p, ser_vals(items, i)),
    ensures
        spec_parse_argvals(s, p, (items.len() - i) as nat) == Option::Some(
            (items.subrange(i, items.len() as int), p + ser_vals(items, i).len()),
        ),
    decreases items.len() - i,
{
    if i == items.len() {
        assert(items.subrange(i, items.len() as int) =~= Seq::<Value>::empty());
    } else {
        let v = items[i];
        let rest = ser_vals(items, i + 1);
        assert(ser_vals(items, i) =~= ser_val(v) + rest);
        lemma_bytes_at_split(s, p, ser_val(v), rest);
        lemma_rt_val(s, p, v);
        lemma_rt_argvals(s, p + ser_val(v).len(), items, i + 1);
        assert(seq![v] + items.subrange(i + 1, items.len() as int) =~= items.subrange(
            i,
            items.len() as int,
        ));
    }
}

/// Parsing where serialized types lie yields those types.
#[verifier::rlimit(100)]
proof fn lemma_rt_tys(s: Seq<u8>, p: int, items: Seq<Type>, i: int)
    requires
        0 <= i <= items.len(),
        bytes_at(s, p, ser_tys(items, i)),
    ensures
        spec_parse_tys(s, p, (items.len() - i) as nat) == Option::Some(
            (items.subrange(i, items.len() as int), p + ser_tys(items, i).len()),
        ),
    decreases items.len() - i,
{
    if i == items.len() {
        assert(items.subrange(i, items.len() as int) =~= Seq::<Type>::empty());
    } else {
        let t = items[i];
        let rest = ser_tys(items, i + 1);
        assert(ser_tys(items, i) =~= ser_ty(t) + rest);
        lemma_bytes_at_split(s, p, ser_ty(t), rest);
        lemma_rt_ty(s, p, t);
        lemma_rt_tys(s, p + ser_ty(t).len(), items, i + 1);
        assert(seq![t] + items.subrange(i + 1, items.len() as int) =~= items.subrange(
            i,
            items.len() as int,
        ));
    }
}

/// The predicate codes round-trip.
proof fn lemma_rt_codes(ip: Icmp, fp: Fcmp)
    ensures
        spec_icmp_of(icmp_code(ip)) == Option::Some(ip),
        spec_fcmp_of(fcmp_code(fp)) == Option::Some(fp),
{
}


/// Parsing where a serialized binary operation lies yields it.
#[verifier::rlimit(100)]
proof fn lemma_rt_op_add(s: Seq<u8>, p: int, a: Value, b: Value)
    requires
        bytes_at(s, p, ser_op(OpV::Add { a, b })),
    ensures
        spec_parse_op(s, p) == Option::Some(
            (OpV::Add { a, b }, p + ser_op(OpV::Add { a, b }).len()),
        ),
{
    assert(ser_op(OpV::Add { a, b }) =~= le8(0) + (ser_val(a) + ser_val(b)));
    lemma_bytes_at_split(s, p, le8(0), ser_val(a) + ser_val(b));
    lemma_rd_word(s, p, 0);
    lemma_bytes_at_split(s, p + 8, ser_val(a), ser_val(b));
    lemma_rt_val(s, p + 8, a);
    lemma_rt_val(s, p + 8 + ser_val(a).len(), b);
}

/// Parsing where a serialized binary operation lies yields it.
#[verifier::rlimit(100)]
proof fn lemma_rt_op_sub(s: Seq<u8>, p: int, a: Value, b: Value)
    requires
        bytes_at(s, p, ser_op(OpV::Sub { a, b })),
    ensures
        spec_parse_op(s, p) == Option::Some(
            (OpV::Sub { a, b }, p + ser_op(OpV::Sub { a, b }).len()),
        ),
{
    assert(ser_op(OpV::Sub { a, b }) =~= le8(1) + (ser_val(a) + ser_val(b)));
    lemma_bytes_at_split(s, p, le8(1), ser_val(a) + ser_val(b));
    lemma_rd_word(s, p, 1);
    lemma_bytes_at_split(s, p + 8, ser_val(a), ser_val(b));
    lemma_rt_val(s, p + 8, a);
    lemma_rt_val(s, p + 8 + ser_val(a).len(), b);
}

/// Parsing where a serialized binary operation lies yields it.
#[verifier::rlimit(100)]
proof fn lemma_rt_op_mul(s: Seq<u8>, p: int, a: Value, b: Value)
    requires
        bytes_at(s, p, ser_op(OpV::Mul { a, b })),
    ensures
        spec_parse_op(s, p) == Option::Some(
            (OpV::Mul { a, b }, p + ser_op(OpV::Mul { a, b }).len()),
        ),
{
    assert(ser_op(OpV::Mul { a, b }) =~= le8(2) + (ser_val(a) + ser_val(b)));
    lemma_bytes_at_split(s, p, le8(2), ser_val(a) + ser_val(b));
    lemma_rd_word(s, p, 2);
    lemma_bytes_at_split(s, p + 8, ser_val(a), ser_val(b));
    lemma_rt_val(s, p + 8, a);
    lemma_rt_val(s, p + 8 + ser_val(a).len(), b);
}

/// Parsing where a serialized binary operation lies yields it.
#[verifier::rlimit(100)]
proof fn lemma_rt_op_and(s: Seq<u8>, p: int, a: Value, b: Value)
    requires
        bytes_at(s, p, ser_op(OpV::And { a, b })),
    ensures
        spec_parse_op(s, p) == Option::Some(
            (OpV::And { a, b }, p + ser_op(OpV::And { a, b }).len()),
        ),
{
    assert(ser_op(OpV::And { a, b }) =~= le8(3) + (ser_val(a) + ser_val(b)));
    lemma_bytes_at_split(s, p, le8(3), ser_val(a) + ser_val(b));
    lemma_rd_word(s, p, 3);
    lemma_bytes_at_split(s, p + 8, ser_val(a), ser_val(b));
    lemma_rt_val(s, p + 8, a);
    lemma_rt_val(s, p + 8 + ser_val(a).len(), b);
}

/// Parsing where a serialized binary operation lies yields it.
#[verifier::rlimit(100)]
proof fn lemma_rt_op_or(s: Seq<u8>, p: int, a: Value, b: Value)
    requires
        bytes_at(s, p, ser_op(OpV::Or { a, b })),
    ensures
        spec_parse_op(s, p) == Option::Some(
            (OpV::Or { a, b }, p + ser_op(OpV::Or { a, b }).len()),
        ),
{
    assert(ser_op(OpV::Or { a, b }) =~= le8(4) + (ser_val(a) + ser_val(b)));
    lemma_bytes_at_split(s, p, le8(4), ser_val(a) + ser_val(b));
    lemma_rd_word(s, p, 4);
    lemma_bytes_at_split(s, p + 8, ser_val(a), ser_val(b));
    lemma_rt_val(s, p + 8, a);
    lemma_rt_val(s, p + 8 + ser_val(a).len(), b);
}

/// Parsing where a serialized binary operation lies yields it.
#[verifier::rlimit(100)]
proof fn lemma_rt_op_xor(s: Seq<u8>, p: int, a: Value, b: Value)
    requires
        bytes_at(s, p, ser_op(OpV::Xor { a, b })),
    ensures
        spec_parse_op(s, p) == Option::Some(
            (OpV::Xor { a, b }, p + ser_op(OpV::Xor { a, b }).len()),
        ),
{
    assert(ser_op(OpV::Xor { a, b }) =~= le8(5) + (ser_val(a) + ser_val(b)));
    lemma_bytes_at_split(s, p, le8(5), ser_val(a) + ser_val(b));
    lemma_rd_word(s, p, 5);
    lemma_bytes_at_split(s, p + 8, ser_val(a), ser_val(b));
    lemma_rt_val(s, p + 8, a);
    lemma_rt_val(s, p + 8 + ser_val(a).len(), b);
}

/// Parsing where a serialized comparison lies yields it.
#[verifier::rlimit(100)]
proof fn lemma_rt_op_icmp(s: Seq<u8>, p: int, pred: Icmp, a: Value, b: Value)
    requires
        bytes_at(s, p, ser_op(OpV::Icmp { pred, a, b })),
    ensures
        spec_parse_op(s, p) == Option::Some(
            (OpV::Icmp { pred, a, b }, p + ser_op(OpV::Icmp { pred, a, b }).len()),
        ),
{
    assert(ser_op(OpV::Icmp { pred, a, b }) =~= le8(6) + (le8(icmp_code(pred)) + (ser_val(a)
        + ser_val(b))));
    lemma_bytes_at_split(s, p, le8(6), le8(icmp_code(pred)) + (ser_val(a) + ser_val(b)));
    lemma_rd_word(s, p, 6);
    lemma_bytes_at_split(s, p + 8, le8(icmp_code(pred)), ser_val(a) + ser_val(b));
    lemma_rd_word(s, p + 8, icmp_code(pred));
    lemma_rt_codes(pred, Fcmp::Oeq);
    lemma_bytes_at_split(s, p + 16, ser_val(a), ser_val(b));
    lemma_rt_val(s, p + 16, a);
    lemma_rt_val(s, p + 16 + ser_val(a).len(), b);
}

/// Parsing where a serialized comparison lies yields it.
#[verifier::rlimit(100)]
proof fn lemma_rt_op_fcmp(s: Seq<u8>, p: int, pred: Fcmp, a: Value, b: Value)
    requires
        bytes_at(s, p, ser_op(OpV::Fcmp { pred, a, b })),
    ensures
        spec_parse_op(s, p) == Option::Some(
            (OpV::Fcmp { pred, a, b }, p + ser_op(OpV::Fcmp { pred, a, b }).len()),
        ),
{
    assert(ser_op(OpV::Fcmp { pred, a, b }) =~= le8(7) + (le8(fcmp_code(pred)) + (ser_val(a)
        + ser_val(b))));
    lemma_bytes_at_split(s, p, le8(7), le8(fcmp_code(pred)) + (ser_val(a) + ser_val(b)));
    lemma_rd_word(s, p, 7);
    lemma_bytes_at_split(s, p + 8, le8(fcmp_code(pred)), ser_val(a) + ser_val(b));
    lemma_rd_word(s, p + 8, fcmp_code(pred));
    lemma_rt_codes(Icmp::Eq, pred);
    lemma_bytes_at_split(s, p + 16, ser_val(a), ser_val(b));
    lemma_rt_val(s, p + 16, a);
    lemma_rt_val(s, p + 16 + ser_val(a).len(), b);
}

/// Parsing where a serialized merge lies yields it.
#[verifier::rlimit(100)]
proof fn lemma_rt_op_phi(s: Seq<u8>, p: int, ty: Type, incoming: Seq<(Value, usize)>)
    requires
        incoming.len() <= usize::MAX,
        bytes_at(s, p, ser_op(OpV::Phi { ty, incoming })),
    ensures
        spec_parse_op(s, p) == Option::Some(
            (OpV::Phi { ty, incoming }, p + ser_op(OpV::Phi { ty, incoming }).len()),
        ),
{
    let n = incoming.len();
    assert(ser_op(OpV::Phi { ty, incoming }) =~= le8(8) + (ser_ty(ty) + (le8(n as u64) + ser_pairs(
        incoming,
        0,
    ))));
    lemma_bytes_at_split(s, p, le8(8), ser_ty(ty) + (le8(n as u64) + ser_pairs(incoming, 0)));
    lemma_rd_word(s, p, 8);
    lemma_bytes_at_split(s, p + 8, ser_ty(ty), le8(n as u64) + ser_pairs(incoming, 0));
    lemma_rt_ty(s, p + 8, ty);
    let q = p + 8 + ser_ty(ty).len();
    lemma_bytes_at_split(s, q, le8(n as u64), ser_pairs(incoming, 0));
    lemma_rd_size(s, q, n as usize);
    lemma_rt_pairs(s, q + 8, incoming, 0);
    assert(incoming.subrange(0, incoming.len() as int) =~= incoming);
}

/// Parsing where a serialized branch lies yields it.
#[verifier::rlimit(100)]
proof fn lemma_rt_op_br(s: Seq<u8>, p: int, dest: usize)
    requires
        bytes_at(s, p, ser_op(OpV::Br { dest })),
    ensures
        spec_parse_op(s, p) == Option::Some(
            (OpV::Br { dest }, p + ser_op(OpV::Br { dest }).len()),
        ),
{
    assert(ser_op(OpV::Br { dest }) =~= le8(9) + le8(dest as u64));
    lemma_bytes_at_split(s, p, le8(9), le8(dest as u64));
    lemma_rd_word(s, p, 9);
    lemma_rd_size(s, p + 8, dest);
}

/// Parsing where a serialized conditional branch lies yields it.
#[verifier::rlimit(100)]
proof fn lemma_rt_op_cond_br(s: Seq<u8>, p: int, cond: Value, td: usize, ed: usize)
    requires
        bytes_at(s, p, ser_op(OpV::CondBr { cond, then_dest: td, else_dest: ed })),
    ensures
        spec_parse_op(s, p) == Option::Some(
            (
                OpV::CondBr { cond, then_dest: td, else_dest: ed },
                p + ser_op(OpV::CondBr { cond, then_dest: td, else_dest: ed }).len(),
            ),
        ),
{
    assert(ser_op(OpV::CondBr { cond, then_dest: td, else_dest: ed }) =~= le8(10) + (ser_val(cond)
        + (le8(td as u64) + le8(ed as u64))));
    lemma_bytes_at_split(s, p, le8(10), ser_val(cond) + (le8(td as u64) + le8(ed as u64)));
    lemma_rd_word(s, p, 10);
    lemma_bytes_at_split(s, p + 8, ser_val(cond), le8(td as u64) + le8(ed as u64));
    lemma_rt_val(s, p + 8, cond);
    let q = p + 8 + ser_val(cond).len();
    lemma_bytes_at_split(s, q, le8(td as u64), le8(ed as u64));
    lemma_rd_size(s, q, td);
    lemma_rd_size(s, q + 8, ed);
}

/// Parsing where a serialized return lies yields it.
#[verifier::rlimit(100)]
proof fn lemma_rt_op_ret(s: Seq<u8>, p: int, val: Option<Value>)
    requires
        bytes_at(s, p, ser_op(OpV::Ret { val })),
    ensures
        spec_parse_op(s, p) == Option::Some(
            (OpV::Ret { val }, p + ser_op(OpV::Ret { val }).len()),
        ),
{
    match val {
        Option::Some(v) => {
            assert(ser_op(OpV::Ret { val }) =~= le8(11) + (le8(1) + ser_val(v)));
            lemma_bytes_at_split(s, p, le8(11), le8(1) + ser_val(v));
            lemma_rd_word(s, p, 11);
            lemma_bytes_at_split(s, p + 8, le8(1), ser_val(v));
            lemma_rd_word(s, p + 8, 1);
            lemma_rt_val(s, p + 16, v);
        },
        Option::None => {
            assert(ser_op(OpV::Ret { val }) =~= le8(11) + le8(0));
            lemma_bytes_at_split(s, p, le8(11), le8(0));
            lemma_rd_word(s, p, 11);
            lemma_rd_word(s, p + 8, 0);
        },
    }
}

/// Parsing where a serialized call lies yields it.
#[verifier::rlimit(100)]
proof fn lemma_rt_op_call(s: Seq<u8>, p: int, func: usize, args: Seq<Value>)
    requires
        args.len() <= usize::MAX,
        bytes_at(s, p, ser_op(OpV::Call { func, args })),
    ensures
        spec_parse_op(s, p) == Option::Some(
            (OpV::Call { func, args }, p + ser_op(OpV::Call { func, args }).len()),
        ),
{
    let n = args.len();
    assert(ser_op(OpV::Call { func, args }) =~= le8(12) + (le8(func as u64) + (le8(n as u64)
        + ser_vals(args, 0))));
    lemma_bytes_at_split(s, p, le8(12), le8(func as u64) + (le8(n as u64) + ser_vals(args, 0)));
    lemma_rd_word(s, p, 12);
    lemma_bytes_at_split(s, p + 8, le8(func as u64), le8(n as u64) + ser_vals(args, 0));
    lemma_rd_size(s, p + 8, func);
    lemma_bytes_at_split(s, p + 16, le8(n as u64), ser_vals(args, 0));
    lemma_rd_size(s, p + 16, n as usize);
    lemma_rt_argvals(s, p + 24, args, 0);
    assert(args.subrange(0, args.len() as int) =~= args);
}

/// Parsing where a serialized operation lies yields that operation.
proof fn lemma_rt_op(s: Seq<u8>, p: int, op: OpV)
    requires
        op_bounded(op),
        bytes_at(s, p, ser_op(op)),
    ensures
        spec_parse_op(s, p) == Option::Some((op, p + ser_op(op).len())),
{
    match op {
        OpV::Add { a, b } => {
            lemma_rt_op_add(s, p, a, b);
        },
        OpV::Sub { a, b } => {
            lemma_rt_op_sub(s, p, a, b);
        },
        OpV::Mul { a, b } => {
            lemma_rt_op_mul(s, p, a, b);
        },
        OpV::And { a, b } => {
            lemma_rt_op_and(s, p, a, b);
        },
        OpV::Or { a, b } => {
            lemma_rt_op_or(s, p, a, b);
        },
        OpV::Xor { a, b } => {
            lemma_rt_op_xor(s, p, a, b);
        },
        OpV::Icmp { pred, a, b } => {
            lemma_rt_op_icmp(s, p, pred, a, b);
        },
        OpV::Fcmp { pred, a, b } => {
            lemma_rt_op_fcmp(s, p, pred, a, b);
        },
        OpV::Phi { ty, incoming } => {
            lemma_rt_op_phi(s, p, ty, incoming);
        },
        OpV::Br { dest } => {
            lemma_rt_op_br(s, p, dest);
        },
        OpV::CondBr { cond, then_dest, else_dest } => {
            lemma_rt_op_cond_br(s, p, cond, then_dest, else_dest);
        },
        OpV::Ret { val } => {
            lemma_rt_op_ret(s, p, val);
        },
        OpV::Call { func, args } => {
            lemma_rt_op_call(s, p, func, args);
        },
    }
}

/// Parsing where serialized instructions lie yields those instructions.
#[verifier::rlimit(100)]
proof fn lemma_rt_insts(s: Seq<u8>, p: int, items: Seq<crate::instr::InstV>, i: int)
    requires
        0 <= i <= items.len(),
        forall|j: int| 0 <= j < items.len() ==> op_bounded((#[trigger] items[j]).op),
        bytes_at(s, p, ser_insts(items, i)),
    ensures
        spec_parse_insts(s, p, (items.len() - i) as nat) == Option::Some(
            (items.subrange(i, items.len() as int), p + ser_insts(items, i).len()),
        ),
    decreases items.len() - i,
{
    if i == items.len() {
        assert(items.subrange(i, items.len() as int) =~= Seq::<crate::instr::InstV>::empty());
    } else {
        let inst = items[i];
        let rest = ser_insts(items, i + 1);
        assert(ser_insts(items, i) =~= le8(inst.id as u64) + (ser_op(inst.op) + rest));
        lemma_bytes_at_split(s, p, le8(inst.id as u64), ser_op(inst.op) + rest);
        lemma_rd_size(s, p, inst.id);
        lemma_bytes_at_split(s, p + 8, ser_op(inst.op), rest);
        lemma_rt_op(s, p + 8, inst.op);
        lemma_rt_insts(s, p + 8 + ser_op(inst.op).len(), items, i + 1);
        assert(seq![crate::instr::InstV { id: inst.id, op: inst.op }] + items.subrange(
            i + 1,
            items.len() as int,
        ) =~= items.subrange(i, items.len() as int));
    }
}

/// Parsing where serialized blocks lie yields those blocks, names and
/// all.
#[verifier::rlimit(100)]
proof fn lemma_rt_blocks(s: Seq<u8>, p: int, items: Seq<crate::instr::BlockV>, i: int)
    requires
        0 <= i <= items.len(),
        forall|j: int| 0 <= j < items.len() ==> block_bounded(#[trigger] items[j]),
        bytes_at(s, p, ser_blocks(items, i)),
    ensures
        spec_parse_blocks(s, p, (items.len() - i) as nat) == Option::Some(
            (items.subrange(i, items.len() as int), p + ser_blocks(items, i).len()),
        ),
    decreases items.len() - i,
{
    if i == items.len() {
        assert(items.subrange(i, items.len() as int) =~= Seq::<crate::instr::BlockV>::empty());
    } else {
        let blk = items[i];
        let rest = ser_blocks(items, i + 1);
        let c0 = le8(blk.name.len() as u64);
        let c1 = ser_name(blk.name, 0);
        let c2 = le8(blk.instrs.len() as u64);
        let c3 = ser_insts(blk.instrs, 0);
        lemma_bytes_at_split(s, p, c0 + c1 + c2 + c3, rest);
        lemma_bytes_at_split(s, p, c0 + c1 + c2, c3);
        lemma_bytes_at_split(s, p, c0 + c1, c2);
        assert(bytes_at(s, p, c0 + c1));
        lemma_rt_counted_name(s, p, blk.name);
        let q1 = p + c0.len() + c1.len();
        lemma_rd_size(s, q1, blk.instrs.len() as usize);
        lemma_rt_insts(s, q1 + 8, blk.instrs, 0);
        assert(blk.instrs.subrange(0, blk.instrs.len() as int) =~= blk.instrs);
        lemma_rt_blocks(s, q1 + 8 + c3.len(), items, i + 1);
        assert((crate::instr::BlockV { name: blk.name, instrs: blk.instrs }) =~= blk);
        assert(seq![blk] + items.subrange(i + 1, items.len() as int) =~= items.subrange(
            i,
            items.len() as int,
        ));
    }
}

/// Parsing where one serialized function lies yields it whole.
#[verifier::rlimit(100)]
proof fn lemma_rt_func_one(s: Seq<u8>, p: int, f: crate::module::FuncDefV)
    requires
        func_bounded(f),
        bytes_at(s, p, ser_func_one(f)),
    ensures
        spec_parse_counted_name(s, p) == Option::Some(
            (f.name, p + 8 + ser_name(f.name, 0).len()),
        ),
        spec_parse_func_rest(s, p + 8 + ser_name(f.name, 0).len(), f.name) == Option::Some(
            (f, p + ser_func_one(f).len()),
        ),
{
    let c0 = le8(f.name.len() as u64);
    let c1 = ser_name(f.name, 0);
    let c2 = ser_ty(f.ty.ret);
    let c3 = le8(f.ty.params.len() as u64);
    let c4 = ser_tys(f.ty.params, 0);
    let c5 = le8(f.n_values as u64);
    let c6 = le8(f.blocks.len() as u64);
    let c7 = ser_blocks(f.blocks, 0);
    lemma_bytes_at_split(s, p, c0 + c1 + c2 + c3 + c4 + c5 + c6, c7);
    lemma_bytes_at_split(s, p, c0 + c1 + c2 + c3 + c4 + c5, c6);
    lemma_bytes_at_split(s, p, c0 + c1 + c2 + c3 + c4, c5);
    lemma_bytes_at_split(s, p, c0 + c1 + c2 + c3, c4);
    lemma_bytes_at_split(s, p, c0 + c1 + c2, c3);
    lemma_bytes_at_split(s, p, c0 + c1, c2);
    assert(bytes_at(s, p, c0 + c1));
    lemma_rt_counted_name(s, p, f.name);
    let q1 = p + c0.len() + c1.len();
    lemma_rt_ty(s, q1, f.ty.ret);
    let q2 = q1 + c2.len();
    lemma_rd_size(s, q2, f.ty.params.len() as usize);
    let q3 = q2 + 8;
    lemma_rt_tys(s, q3, f.ty.params, 0);
    assert(f.ty.params.subrange(0, f.ty.params.len() as int) =~= f.ty.params);
    let q4 = q3 + c4.len();
    lemma_rd_size(s, q4, f.n_values);
    let q5 = q4 + 8;
    lemma_rd_size(s, q5, f.blocks.len() as usize);
    let q6 = q5 + 8;
    lemma_rt_blocks(s, q6, f.blocks, 0);
    assert(f.blocks.subrange(0, f.blocks.len() as int) =~= f.blocks);
    assert((crate::module::FuncTypeV { ret: f.ty.ret, params: f.ty.params }) =~= f.ty);
    assert((crate::module::FuncDefV {
        name: f.name,
        ty: crate::module::FuncTypeV { ret: f.ty.ret, params: f.ty.params },
        blocks: f.blocks,
        n_values: f.n_values,
    }) =~= f);
}

/// Parsing where serialized functions lie yields those functions, names
/// and all.
#[verifier::rlimit(100)]
proof fn lemma_rt_funcs(s: Seq<u8>, p: int, items: Seq<crate::module::FuncDefV>, i: int)
    requires
        0 <= i <= items.len(),
        forall|j: int| 0 <= j < items.len() ==> func_bounded(#[trigger] items[j]),
        bytes_at(s, p, ser_funcs(items, i)),
    ensures
        spec_parse_funcs(s, p, (items.len() - i) as nat) == Option::Some(
            (items.subrange(i, items.len() as int), p + ser_funcs(items, i).len()),
        ),
    decreases items.len() - i,
{
    if i == items.len() {
        assert(items.subrange(i, items.len() as int) =~= Seq::<crate::module::FuncDefV>::empty());
    } else {
        let f = items[i];
        let rest = ser_funcs(items, i + 1);
        lemma_bytes_at_split(s, p, ser_func_one(f), rest);
        lemma_rt_func_one(s, p, f);
        lemma_rt_funcs(s, p + ser_func_one(f).len(), items, i + 1);
        assert(seq![f] + items.subrange(i + 1, items.len() as int) =~= items.subrange(
            i,
            items.len() as int,
        ));
    }
}

/// Parsing where a serialized module header lies yields its three
/// strings in order.
#[verifier::rlimit(100)]
proof fn lemma_rt_header(s: Seq<u8>, m: ModuleV)
    requires
        m.name.len() <= usize::MAX,
        m.target.len() <= usize::MAX,
        m.data_layout.len() <= usize::MAX,
        bytes_at(s, 0, ser_module_header(m)),
    ensures
        ({
            let p1 = 8 + ser_name(m.name, 0).len() as int;
            let p2 = p1 + 8 + ser_name(m.target, 0).len();
            let p3 = p2 + 8 + ser_name(m.data_layout, 0).len();
            &&& spec_parse_counted_name(s, 0) == Option::Some((m.name, p1))
            &&& spec_parse_counted_name(s, p1) == Option::Some((m.target, p2))
            &&& spec_parse_counted_name(s, p2) == Option::Some((m.data_layout, p3))
            &&& p3 == ser_module_header(m).len()
        }),
{
    let c0 = le8(m.name.len() as u64);
    let c1 = ser_name(m.name, 0);
    let c2 = le8(m.target.len() as u64);
    let c3 = ser_name(m.target, 0);
    let c4 = le8(m.data_layout.len() as u64);
    let c5 = ser_name(m.data_layout, 0);
    assert(ser_module_header(m) =~= (c0 + c1 + c2 + c3) + (c4 + c5));
    lemma_bytes_at_split(s, 0, c0 + c1 + c2 + c3, c4 + c5);
    assert(c0 + c1 + c2 + c3 =~= (c0 + c1) + (c2 + c3));
    lemma_bytes_at_split(s, 0, c0 + c1, c2 + c3);
    lemma_rt_counted_name(s, 0, m.name);
    let p1 = c0.len() + c1.len() as int;
    lemma_rt_counted_name(s, p1, m.target);
    let p2 = p1 + c2.len() + c3.len() as int;
    lemma_rt_counted_name(s, p2, m.data_layout);
}

/// Serializing a module and re-materializing the buffer yields the
/// module back whole: the identifier, target and data layout strings,
/// and every function with its name, type, value budget, blocks and
/// instructions survive the trip exactly.
#[verifier::rlimit(100)]
#[verifier::spinoff_prover]
pub proof fn lemma_bitcode_round_trip(m: ModuleV)
    requires
        module_bounded(m),
    ensures
        spec_parse_module(spec_bitcode(m)) == Option::Some(
            (m.name, m.target, m.data_layout, m.funcs),
        ),
{
    let s = spec_bitcode(m);
    let hd = ser_module_header(m);
    let c6 = le8(m.funcs.len() as u64);
    let c7 = ser_funcs(m.funcs, 0);
    assert(bytes_at(s, 0, hd + c6 + c7)) by {
        assert(s.subrange(0, s.len() as int) =~= s);
    }
    lemma_bytes_at_split(s, 0, hd + c6, c7);
    lemma_bytes_at_split(s, 0, hd, c6);
    lemma_rt_header(s, m);
    let p3 = hd.len() as int;
    lemma_rd_size(s, p3, m.funcs.len() as usize);
    lemma_rt_funcs(s, p3 + 8, m.funcs, 0);
    assert(m.funcs.subrange(0, m.funcs.len() as int) =~= m.funcs);
}

} // verus!
