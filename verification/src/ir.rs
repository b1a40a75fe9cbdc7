use crate::error::Error;
use vstd::prelude::*;

verus! {

/// Largest supported integer width, in bits.
pub const MAX_INT_BITS: u32 = 8388608;

/// The kind of a [`Type`].
#[derive(Clone, Copy, PartialEq, Eq, Structural, Debug)]
pub enum TypeKind {
    /// The empty type.
    Void,
    /// An arbitrary-width integer type.
    Integer,
    /// A 32-bit floating point type.
    Float,
    /// A 64-bit floating point type.
    Double,
}

/// A first-class scalar type, scoped to the context it was created in.
#[derive(Clone, Copy, PartialEq, Eq, Structural, Debug)]
pub enum Type {
    /// The empty type.
    Void,
    /// An integer type of the given width in bits.
    Int {
        /// Width in bits, between 1 and [`MAX_INT_BITS`].
        bits: u32,
    },
    /// A 32-bit floating point type, handled by its raw bit pattern.
    Float,
    /// A 64-bit floating point type, handled by its raw bit pattern.
    Double,
}

impl Type {
    /// The kind of this type.
    pub open spec fn kind_spec(self) -> TypeKind {
        match self {
            Type::Void => TypeKind::Void,
            Type::Int { .. } => TypeKind::Integer,
            Type::Float => TypeKind::Float,
            Type::Double => TypeKind::Double,
        }
    }

    /// Whether this is an integer type.
    pub open spec fn is_int(self) -> bool {
        self is Int
    }

    /// The width of an integer type, 0 otherwise.
    pub open spec fn width(self) -> u32 {
        match self {
            Type::Int { bits } => bits,
            _ => 0,
        }
    }

    /// Create an integer type of the given width; the foreign arena refuses
    /// the width 0 and widths beyond [`MAX_INT_BITS`].
    pub fn integer(_ctx: &crate::context::Context, bits: usize) -> (r: Result<Type, Error>)
        ensures
            1 <= bits <= MAX_INT_BITS <==> (r matches Ok(t) && t == (Type::Int {
                bits: bits as u32,
            })),
            r matches Err(e) ==> e is NullPointer,
    {
        if 1 <= bits && bits <= MAX_INT_BITS as usize {
            Ok(Type::Int { bits: bits as u32 })
        } else {
            Err(Error::NullPointer)
        }
    }

    /// The 64-bit integer type.
    pub fn i64(ctx: &crate::context::Context) -> (r: Result<Type, Error>)
        ensures
            r matches Ok(t) && t == (Type::Int { bits: 64u32 }),
    {
        Type::integer(ctx, 64)
    }

    /// The 32-bit integer type.
    pub fn i32(ctx: &crate::context::Context) -> (r: Result<Type, Error>)
        ensures
            r matches Ok(t) && t == (Type::Int { bits: 32u32 }),
    {
        Type::integer(ctx, 32)
    }

    /// The 16-bit integer type.
    pub fn i16(ctx: &crate::context::Context) -> (r: Result<Type, Error>)
        ensures
            r matches Ok(t) && t == (Type::Int { bits: 16u32 }),
    {
        Type::integer(ctx, 16)
    }

    /// The 8-bit integer type.
    pub fn i8(ctx: &crate::context::Context) -> (r: Result<Type, Error>)
        ensures
            r matches Ok(t) && t == (Type::Int { bits: 8u32 }),
    {
        Type::integer(ctx, 8)
    }

    /// The 1-bit integer type.
    pub fn i1(ctx: &crate::context::Context) -> (r: Result<Type, Error>)
        ensures
            r matches Ok(t) && t == (Type::Int { bits: 1u32 }),
    {
        Type::integer(ctx, 1)
    }

    /// The empty type.
    pub fn void(_ctx: &crate::context::Context) -> (r: Result<Type, Error>)
        ensures
            r == Ok::<Type, Error>(Type::Void),
    {
        Ok(Type::Void)
    }

    /// The 32-bit floating point type.
    pub fn float(_ctx: &crate::context::Context) -> (r: Result<Type, Error>)
        ensures
            r == Ok::<Type, Error>(Type::Float),
    {
        Ok(Type::Float)
    }

    /// The 64-bit floating point type.
    pub fn double(_ctx: &crate::context::Context) -> (r: Result<Type, Error>)
        ensures
            r == Ok::<Type, Error>(Type::Double),
    {
        Ok(Type::Double)
    }

    /// The kind of this type.
    pub fn kind(self) -> (r: TypeKind)
        ensures
            r == self.kind_spec(),
    {
        match self {
            Type::Void => TypeKind::Void,
            Type::Int { .. } => TypeKind::Integer,
            Type::Float => TypeKind::Float,
            Type::Double => TypeKind::Double,
        }
    }

    /// Returns true when the type kind matches `kind`.
    pub fn is(self, kind: TypeKind) -> (r: bool)
        ensures
            r == (self.kind_spec() == kind),
    {
        self.kind() == kind
    }

    /// The width of an integer type in bits, 0 for any other type.
    pub fn int_width(self) -> (r: usize)
        ensures
            r == self.width(),
    {
        match self {
            Type::Int { bits } => bits as usize,
            _ => 0,
        }
    }
}

/// The kind of a [`Value`].
#[derive(Clone, Copy, PartialEq, Eq, Structural, Debug)]
pub enum ValueKind {
    /// A constant.
    Constant,
    /// A function parameter.
    Argument,
    /// The result of an instruction.
    Instruction,
}

/// A non-owning reference to a value in the foreign graph: a constant, a
/// function parameter, or the result of an instruction.  Copying a `Value`
/// never duplicates ownership; the owning context frees all values at once.
#[derive(Clone, Copy, PartialEq, Eq, Structural, Debug)]
pub enum Value {
    /// A typed constant, its payload held as a raw bit pattern.
    Const {
        /// The constant's type.
        ty: Type,
        /// The payload, truncated to the type's width.
        bits: u64,
    },
    /// The parameter `index` of the function with index `func`.
    Param {
        /// Index of the function this parameter belongs to.
        func: usize,
        /// Position of the parameter.
        index: usize,
        /// The parameter's type.
        ty: Type,
    },
    /// The result of the instruction with value id `id`.
    Instr {
        /// The defining instruction's value id, local to its function.
        id: usize,
        /// The result's type.
        ty: Type,
    },
}

impl Value {
    /// The type of this value.
    pub open spec fn ty_spec(self) -> Type {
        match self {
            Value::Const { ty, .. } => ty,
            Value::Param { ty, .. } => ty,
            Value::Instr { ty, .. } => ty,
        }
    }

    /// The kind of this value.
    pub open spec fn kind_spec(self) -> ValueKind {
        match self {
            Value::Const { .. } => ValueKind::Constant,
            Value::Param { .. } => ValueKind::Argument,
            Value::Instr { .. } => ValueKind::Instruction,
        }
    }

    /// Get the type of this value.
    pub fn type_of(self) -> (r: Result<Type, Error>)
        ensures
            r == Ok::<Type, Error>(self.ty_spec()),
    {
        match self {
            Value::Const { ty, .. } => Ok(ty),
            Value::Param { ty, .. } => Ok(ty),
            Value::Instr { ty, .. } => Ok(ty),
        }
    }

    /// The kind of this value.
    pub fn kind(self) -> (r: ValueKind)
        ensures
            r == self.kind_spec(),
    {
        match self {
            Value::Const { .. } => ValueKind::Constant,
            Value::Param { .. } => ValueKind::Argument,
            Value::Instr { .. } => ValueKind::Instruction,
        }
    }

    /// Returns true when the value kind matches `kind`.
    pub fn is(self, kind: ValueKind) -> (r: bool)
        ensures
            r == (self.kind_spec() == kind),
    {
        self.kind() == kind
    }

    /// Returns true when the value is a constant.
    pub fn is_const(self) -> (r: bool)
        ensures
            r == (self is Const),
    {
        match self {
            Value::Const { .. } => true,
            _ => false,
        }
    }

    /// Reinterpret the value as a constant, failing when it is none.
    pub fn to_const(self) -> (r: Result<Const, Error>)
        ensures
            self is Const <==> (r matches Ok(c) && c.value_spec() == self),
            r matches Err(e) ==> e is InvalidConst,
    {
        if self.is_const() {
            Ok(Const { value: self })
        } else {
            Err(Error::InvalidConst)
        }
    }

    /// Whether this value and another share one integer type.
    pub fn same_int_type(&self, other: &Value) -> (r: bool)
        ensures
            r == (self.ty_spec() is Int && self.ty_spec() == other.ty_spec()),
    {
        match (self, other) {
            (Value::Const { .. }, _) | (Value::Param { .. }, _) | (Value::Instr { .. }, _) => {
                let ta = match self.type_of() {
                    Ok(t) => t,
                    Err(_) => Type::Void,
                };
                let tb = match other.type_of() {
                    Ok(t) => t,
                    Err(_) => Type::Void,
                };
                ta.is(TypeKind::Integer) && ta == tb
            },
        }
    }
}

/// A constant value.
#[derive(Clone, Copy, PartialEq, Eq, Structural, Debug)]
pub struct Const {
    pub(crate) value: Value,
}

impl Const {
    /// The underlying value.
    pub closed spec fn value_spec(self) -> Value {
        self.value
    }

    /// The constant's bit pattern; 0 for a non-constant payload.
    pub closed spec fn bits_spec(self) -> u64 {
        match self.value {
            Value::Const { bits, .. } => bits,
            _ => 0,
        }
    }

    /// The constant's type.
    pub closed spec fn ty_spec(self) -> Type {
        self.value.ty_spec()
    }

    /// Whether this constant is an integer constant of some width.
    pub closed spec fn is_int(self) -> bool {
        self.value is Const && self.value.ty_spec() is Int
    }

    /// The underlying value.
    pub fn value(self) -> (r: Value)
        ensures
            r == self.value_spec(),
    {
        self.value
    }

    /// The underlying value.
    pub fn to_value(self) -> (r: Value)
        ensures
            r == self.value_spec(),
    {
        self.value
    }

    /// Create an integer constant from an unsigned payload, truncated to
    /// the type's width; fails on a non-integer type.
    pub fn integer(ty: Type, v: u64) -> (r: Result<Const, Error>)
        ensures
            ty is Int <==> (r matches Ok(c) && c.value_spec() == (Value::Const {
                ty,
                bits: spec_trunc(ty.width(), v),
            })),
            r matches Err(e) ==> e is NullPointer,
    {
        match ty {
            Type::Int { bits } => Ok(
                Const { value: Value::Const { ty, bits: trunc_bits(bits, v) } },
            ),
            _ => Err(Error::NullPointer),
        }
    }

    /// Create an integer constant from a signed payload by sign extension,
    /// truncated to the type's width; fails on a non-integer type.
    pub fn int_sext(ty: Type, v: i64) -> (r: Result<Const, Error>)
        ensures
            ty is Int <==> (r matches Ok(c) && c.value_spec() == (Value::Const {
                ty,
                bits: spec_trunc(ty.width(), v as u64),
            })),
            r matches Err(e) ==> e is NullPointer,
    {
        match ty {
            Type::Int { bits } => {
                let payload: u64 = #[verifier::truncate] (v as u64);
                Ok(Const { value: Value::Const { ty, bits: trunc_bits(bits, payload) } })
            },
            _ => Err(Error::NullPointer),
        }
    }

    /// Create a floating point constant from its raw bit pattern (32
    /// significant bits for the float type, 64 for the double type); fails
    /// on any other type.
    pub fn real_bits(ty: Type, pattern: u64) -> (r: Result<Const, Error>)
        ensures
            ty is Float ==> (r matches Ok(c) && c.value_spec() == (Value::Const {
                ty,
                bits: spec_trunc(32, pattern),
            })),
            ty is Double ==> (r matches Ok(c) && c.value_spec() == (Value::Const {
                ty,
                bits: pattern,
            })),
            !(ty is Float || ty is Double) <==> (r matches Err(e) && e is NullPointer),
    {
        match ty {
            Type::Float => Ok(
                Const { value: Value::Const { ty, bits: trunc_bits(32, pattern) } },
            ),
            Type::Double => Ok(Const { value: Value::Const { ty, bits: pattern } }),
            _ => Err(Error::NullPointer),
        }
    }

    /// The constant's payload as an unsigned integer, for integer constants.
    pub fn get_unsigned_int(self) -> (r: Option<u64>)
        ensures
            self.is_int() <==> (r matches Some(b) && b == self.bits_spec()),
    {
        match self.value {
            Value::Const { ty: Type::Int { .. }, bits } => Some(bits),
            _ => None,
        }
    }

    /// The constant's payload as a signed integer: the payload of an
    /// integer constant, sign-extended from the type's width.
    pub fn get_signed_int(self) -> (r: Option<i64>)
        ensures
            self.is_int() <==> (r matches Some(b) && b as int == spec_as_signed(
                spec_sext(self.ty_spec().width(), self.bits_spec()),
            )),
    {
        match self.value {
            Value::Const { ty: Type::Int { bits }, bits: payload } => {
                let e: u64 = sext_bits(bits, payload);
                if e < 0x8000_0000_0000_0000u64 {
                    Some(e as i64)
                } else {
                    let diff: u64 = 0xffff_ffff_ffff_ffffu64 - e;
                    Some(-(diff as i64) - 1)
                }
            },
            _ => None,
        }
    }
}

/// A left shift of 1 by fewer than 64 places never reaches zero.
proof fn lemma_one_shl_ge_one(w: u64)
    requires
        w < 64,
    ensures
        (1u64 << w) >= 1,
{
    assert((1u64 << w) >= 1) by (bit_vector)
        requires
            w < 64,
    ;
}

/// Sign-extend the low `w` bits of a pattern to the full 64 bits.
pub open spec fn spec_sext(w: u32, x: u64) -> u64 {
    if w == 0 || w >= 64 {
        x
    } else if x & (1u64 << ((w - 1) as u64)) != 0 {
        x | ((((1u64 << (w as u64)) - 1) as u64) ^ 0xffff_ffff_ffff_ffffu64)
    } else {
        spec_trunc(w, x)
    }
}

/// Reinterpret a 64-bit pattern as a signed quantity.
pub open spec fn spec_as_signed(x: u64) -> int {
    if x < 0x8000_0000_0000_0000u64 {
        x as int
    } else {
        x - 0x1_0000_0000_0000_0000
    }
}

/// Sign-extend the low `w` bits of a pattern to the full 64 bits.
pub fn sext_bits(w: u32, x: u64) -> (r: u64)
    ensures
        r == spec_sext(w, x),
{
    if w == 0 || w >= 64 {
        x
    } else {
        let sign: u64 = 1u64 << ((w - 1) as u64);
        if x & sign != 0 {
            proof {
                lemma_one_shl_ge_one(w as u64);
            }
            let mask: u64 = (1u64 << (w as u64)) - 1;
            x | (mask ^ 0xffff_ffff_ffff_ffffu64)
        } else {
            trunc_bits(w, x)
        }
    }
}

/// Truncate a bit pattern to the low `w` bits.
pub open spec fn spec_trunc(w: u32, x: u64) -> u64 {
    if w >= 64 {
        x
    } else {
        x & (((1u64 << (w as u64)) - 1) as u64)
    }
}

/// Truncate a bit pattern to the low `w` bits.
pub fn trunc_bits(w: u32, x: u64) -> (r: u64)
    ensures
        r == spec_trunc(w, x),
{
    if w >= 64 {
        x
    } else {
        proof {
            lemma_one_shl_ge_one(w as u64);
        }
        let mask: u64 = (1u64 << (w as u64)) - 1;
        x & mask
    }
}

/// Addition of two 64-bit patterns, wrapping at 64 bits.
pub open spec fn spec_wrap_add(a: u64, b: u64) -> u64 {
    (((a + b) as int) % 0x1_0000_0000_0000_0000) as u64
}

/// Addition of two 64-bit patterns, wrapping at 64 bits.
pub fn wrap_add(a: u64, b: u64) -> (r: u64)
    ensures
        r == spec_wrap_add(a, b),
{
    let s: u128 = a as u128 + b as u128;
    let t: u128 = s % 0x1_0000_0000_0000_0000u128;
    t as u64
}

/// Subtraction of two 64-bit patterns, wrapping at 64 bits.
pub open spec fn spec_wrap_sub(a: u64, b: u64) -> u64 {
    if a >= b {
        (a - b) as u64
    } else {
        (a + 0x1_0000_0000_0000_0000 - b) as u64
    }
}

/// Subtraction of two 64-bit patterns, wrapping at 64 bits.
pub fn wrap_sub(a: u64, b: u64) -> (r: u64)
    ensures
        r == spec_wrap_sub(a, b),
{
    if a >= b {
        a - b
    } else {
        let s: u128 = a as u128 + 0x1_0000_0000_0000_0000u128 - b as u128;
        let t: u128 = s % 0x1_0000_0000_0000_0000u128;
        t as u64
    }
}

/// Multiplication of two 64-bit patterns, wrapping at 64 bits.
pub open spec fn spec_wrap_mul(a: u64, b: u64) -> u64 {
    (((a * b) as int) % 0x1_0000_0000_0000_0000) as u64
}

/// Multiplication of two 64-bit patterns, wrapping at 64 bits.
pub fn wrap_mul(a: u64, b: u64) -> (r: u64)
    ensures
        r == spec_wrap_mul(a, b),
{
    proof {
        assert(a as u128 * b as u128 <= 0xffff_ffff_ffff_ffffu128 * 0xffff_ffff_ffff_ffffu128)
            by (nonlinear_arith)
            requires
                a <= 0xffff_ffff_ffff_ffffu128,
                b <= 0xffff_ffff_ffff_ffffu128,
        ;
    }
    let s: u128 = a as u128 * b as u128;
    let t: u128 = s % 0x1_0000_0000_0000_0000u128;
    t as u64
}

/// Signed comparison of two 64-bit patterns interpreted as two's
/// complement quantities.
pub fn signed_lt(a: u64, b: u64) -> (r: bool)
    ensures
        r == (spec_as_signed(a) < spec_as_signed(b)),
{
    let na: bool = a >= 0x8000_0000_0000_0000u64;
    let nb: bool = b >= 0x8000_0000_0000_0000u64;
    if na != nb {
        na
    } else {
        a < b
    }
}

/// Integer comparison of two payloads at the given width: the operands
/// are truncated to the width, and for the signed predicates compared
/// after sign extension.
pub open spec fn spec_icmp_bits(pred: Icmp, w: u32, a: u64, b: u64) -> bool {
    let ua = spec_trunc(w, a);
    let ub = spec_trunc(w, b);
    let sa = spec_as_signed(spec_sext(w, ua));
    let sb = spec_as_signed(spec_sext(w, ub));
    match pred {
        Icmp::Eq => ua == ub,
        Icmp::Ne => ua != ub,
        Icmp::Ugt => ua > ub,
        Icmp::Uge => ua >= ub,
        Icmp::Ult => ua < ub,
        Icmp::Ule => ua <= ub,
        Icmp::Sgt => sa > sb,
        Icmp::Sge => sa >= sb,
        Icmp::Slt => sa < sb,
        Icmp::Sle => sa <= sb,
    }
}

/// Integer comparison of two payloads at the given width.
pub fn icmp_bits(pred: Icmp, w: u32, a: u64, b: u64) -> (r: bool)
    ensures
        r == spec_icmp_bits(pred, w, a, b),
{
    let ua: u64 = trunc_bits(w, a);
    let ub: u64 = trunc_bits(w, b);
    match pred {
        Icmp::Eq => ua == ub,
        Icmp::Ne => ua != ub,
        Icmp::Ugt => ua > ub,
        Icmp::Uge => ua >= ub,
        Icmp::Ult => ua < ub,
        Icmp::Ule => ua <= ub,
        Icmp::Sgt => signed_lt(sext_bits(w, ub), sext_bits(w, ua)),
        Icmp::Sge => !signed_lt(sext_bits(w, ua), sext_bits(w, ub)),
        Icmp::Slt => signed_lt(sext_bits(w, ua), sext_bits(w, ub)),
        Icmp::Sle => !signed_lt(sext_bits(w, ub), sext_bits(w, ua)),
    }
}

/// The integer comparison predicates.
#[derive(Clone, Copy, PartialEq, Eq, Structural, Debug)]
pub enum Icmp {
    /// Equal.
    Eq,
    /// Not equal.
    Ne,
    /// Unsigned greater than.
    Ugt,
    /// Unsigned greater or equal.
    Uge,
    /// Unsigned less than.
    Ult,
    /// Unsigned less or equal.
    Ule,
    /// Signed greater than.
    Sgt,
    /// Signed greater or equal.
    Sge,
    /// Signed less than.
    Slt,
    /// Signed less or equal.
    Sle,
}

/// The floating point comparison predicates: the ordered predicates are
/// false whenever either operand is not a number, the unordered ones true.
#[derive(Clone, Copy, PartialEq, Eq, Structural, Debug)]
pub enum Fcmp {
    /// Ordered and equal.
    Oeq,
    /// Ordered and greater than.
    Ogt,
    /// Ordered and greater or equal.
    Oge,
    /// Ordered and less than.
    Olt,
    /// Ordered and less or equal.
    Ole,
    /// Ordered and not equal.
    One,
    /// Neither operand is a not-a-number payload.
    Ord,
    /// Unordered or equal.
    Ueq,
    /// Unordered or greater than.
    Ugt,
    /// Unordered or greater or equal.
    Uge,
    /// Unordered or less than.
    Ult,
    /// Unordered or less or equal.
    Ule,
    /// Unordered or not equal.
    Une,
    /// At least one operand is a not-a-number payload.
    Uno,
}

/// Attribute placement index.
#[derive(Clone, Copy, PartialEq, Eq, Structural, Debug)]
pub enum AttributeIndex {
    /// The return value slot.
    Return,
    /// The parameter slot with the given position.
    Param(u32),
    /// The function itself.
    Func,
}

impl AttributeIndex {
    /// The foreign index of this slot: 0 for the return value, the
    /// position shifted up by one for a parameter, and the all-ones index
    /// for the function itself.  Parameter positions above
    /// `0xffff_fffd` have no foreign index.
    pub fn get_index(self) -> (r: u32)
        requires
            self matches AttributeIndex::Param(i) ==> i <= 0xffff_fffdu32,
        ensures
            r == (match self {
                AttributeIndex::Return => 0u32,
                AttributeIndex::Param(i) => (i + 1) as u32,
                AttributeIndex::Func => 0xffff_ffffu32,
            }),
    {
        match self {
            AttributeIndex::Return => 0,
            AttributeIndex::Param(index) => index + 1,
            AttributeIndex::Func => 0xffff_ffff,
        }
    }
}

impl Const {
    /// Whether two constants are integer constants of one and the same type.
    pub open spec fn same_int(a: Const, b: Const) -> bool {
        a.value_spec() is Const && b.value_spec() is Const && a.ty_spec() is Int && a.ty_spec()
            == b.ty_spec()
    }

    /// Constant-fold an addition, wrapping at the common integer type's
    /// width; fails unless both operands are integer constants of one type.
    pub fn add(self, other: Const) -> (r: Result<Const, Error>)
        ensures
            Self::same_int(self, other) <==> (r matches Ok(c) && c.value_spec() == (Value::Const {
                ty: self.ty_spec(),
                bits: spec_trunc(self.ty_spec().width(), spec_wrap_add(self.bits_spec(), other.bits_spec())),
            })),
            r matches Err(e) ==> e is NullPointer,
    {
        match (self.value, other.value) {
            (Value::Const { ty: ta, bits: ba }, Value::Const { ty: tb, bits: bb }) => {
                if ta.is(TypeKind::Integer) && ta == tb {
                    let w: u32 = match ta {
                        Type::Int { bits } => bits,
                        _ => 0,
                    };
                    Ok(Const { value: Value::Const { ty: ta, bits: trunc_bits(w, wrap_add(ba, bb)) } })
                } else {
                    Err(Error::NullPointer)
                }
            },
            _ => Err(Error::NullPointer),
        }
    }

    /// Constant-fold a subtraction, wrapping at the common integer type's
    /// width; fails unless both operands are integer constants of one type.
    pub fn sub(self, other: Const) -> (r: Result<Const, Error>)
        ensures
            Self::same_int(self, other) <==> (r matches Ok(c) && c.value_spec() == (Value::Const {
                ty: self.ty_spec(),
                bits: spec_trunc(self.ty_spec().width(), spec_wrap_sub(self.bits_spec(), other.bits_spec())),
            })),
            r matches Err(e) ==> e is NullPointer,
    {
        match (self.value, other.value) {
            (Value::Const { ty: ta, bits: ba }, Value::Const { ty: tb, bits: bb }) => {
                if ta.is(TypeKind::Integer) && ta == tb {
                    let w: u32 = match ta {
                        Type::Int { bits } => bits,
                        _ => 0,
                    };
                    Ok(Const { value: Value::Const { ty: ta, bits: trunc_bits(w, wrap_sub(ba, bb)) } })
                } else {
                    Err(Error::NullPointer)
                }
            },
            _ => Err(Error::NullPointer),
        }
    }

    /// Constant-fold a multiplication, wrapping at the common integer
    /// type's width; fails unless both operands are integer constants of
    /// one type.
    pub fn mul(self, other: Const) -> (r: Result<Const, Error>)
        ensures
            Self::same_int(self, other) <==> (r matches Ok(c) && c.value_spec() == (Value::Const {
                ty: self.ty_spec(),
                bits: spec_trunc(self.ty_spec().width(), spec_wrap_mul(self.bits_spec(), other.bits_spec())),
            })),
            r matches Err(e) ==> e is NullPointer,
    {
        match (self.value, other.value) {
            (Value::Const { ty: ta, bits: ba }, Value::Const { ty: tb, bits: bb }) => {
                if ta.is(TypeKind::Integer) && ta == tb {
                    let w: u32 = match ta {
                        Type::Int { bits } => bits,
                        _ => 0,
                    };
                    Ok(Const { value: Value::Const { ty: ta, bits: trunc_bits(w, wrap_mul(ba, bb)) } })
                } else {
                    Err(Error::NullPointer)
                }
            },
            _ => Err(Error::NullPointer),
        }
    }

    /// Constant-fold a bitwise conjunction; fails unless both operands are
    /// integer constants of one type.
    pub fn and(self, other: Const) -> (r: Result<Const, Error>)
        ensures
            Self::same_int(self, other) <==> (r matches Ok(c) && c.value_spec() == (Value::Const {
                ty: self.ty_spec(),
                bits: spec_trunc(self.ty_spec().width(), self.bits_spec() & other.bits_spec()),
            })),
            r matches Err(e) ==> e is NullPointer,
    {
        match (self.value, other.value) {
            (Value::Const { ty: ta, bits: ba }, Value::Const { ty: tb, bits: bb }) => {
                if ta.is(TypeKind::Integer) && ta == tb {
                    let w: u32 = match ta {
                        Type::Int { bits } => bits,
                        _ => 0,
                    };
                    Ok(Const { value: Value::Const { ty: ta, bits: trunc_bits(w, ba & bb) } })
                } else {
                    Err(Error::NullPointer)
                }
            },
            _ => Err(Error::NullPointer),
        }
    }

    /// Constant-fold a bitwise disjunction; fails unless both operands are
    /// integer constants of one type.
    pub fn or(self, other: Const) -> (r: Result<Const, Error>)
        ensures
            Self::same_int(self, other) <==> (r matches Ok(c) && c.value_spec() == (Value::Const {
                ty: self.ty_spec(),
                bits: spec_trunc(self.ty_spec().width(), self.bits_spec() | other.bits_spec()),
            })),
            r matches Err(e) ==> e is NullPointer,
    {
        match (self.value, other.value) {
            (Value::Const { ty: ta, bits: ba }, Value::Const { ty: tb, bits: bb }) => {
                if ta.is(TypeKind::Integer) && ta == tb {
                    let w: u32 = match ta {
                        Type::Int { bits } => bits,
                        _ => 0,
                    };
                    Ok(Const { value: Value::Const { ty: ta, bits: trunc_bits(w, ba | bb) } })
                } else {
                    Err(Error::NullPointer)
                }
            },
            _ => Err(Error::NullPointer),
        }
    }

    /// Constant-fold a bitwise exclusive disjunction; fails unless both
    /// operands are integer constants of one type.
    pub fn xor(self, other: Const) -> (r: Result<Const, Error>)
        ensures
            Self::same_int(self, other) <==> (r matches Ok(c) && c.value_spec() == (Value::Const {
                ty: self.ty_spec(),
                bits: spec_trunc(self.ty_spec().width(), self.bits_spec() ^ other.bits_spec()),
            })),
            r matches Err(e) ==> e is NullPointer,
    {
        match (self.value, other.value) {
            (Value::Const { ty: ta, bits: ba }, Value::Const { ty: tb, bits: bb }) => {
                if ta.is(TypeKind::Integer) && ta == tb {
                    let w: u32 = match ta {
                        Type::Int { bits } => bits,
                        _ => 0,
                    };
                    Ok(Const { value: Value::Const { ty: ta, bits: trunc_bits(w, ba ^ bb) } })
                } else {
                    Err(Error::NullPointer)
                }
            },
            _ => Err(Error::NullPointer),
        }
    }

    /// Constant-fold an arithmetic negation, wrapping at the type's width;
    /// fails unless the operand is an integer constant.
    pub fn neg(self) -> (r: Result<Const, Error>)
        ensures
            self.is_int() <==> (r matches Ok(c) && c.value_spec() == (Value::Const {
                ty: self.ty_spec(),
                bits: spec_trunc(self.ty_spec().width(), spec_wrap_sub(0, self.bits_spec())),
            })),
            r matches Err(e) ==> e is NullPointer,
    {
        match self.value {
            Value::Const { ty: Type::Int { bits }, bits: ba } => Ok(
                Const {
                    value: Value::Const {
                        ty: Type::Int { bits },
                        bits: trunc_bits(bits, wrap_sub(0, ba)),
                    },
                },
            ),
            _ => Err(Error::NullPointer),
        }
    }

    /// Constant-fold a bitwise complement at the type's width; fails
    /// unless the operand is an integer constant.
    pub fn not(self) -> (r: Result<Const, Error>)
        ensures
            self.is_int() <==> (r matches Ok(c) && c.value_spec() == (Value::Const {
                ty: self.ty_spec(),
                bits: spec_trunc(self.ty_spec().width(), self.bits_spec() ^ 0xffff_ffff_ffff_ffffu64),
            })),
            r matches Err(e) ==> e is NullPointer,
    {
        match self.value {
            Value::Const { ty: Type::Int { bits }, bits: ba } => Ok(
                Const {
                    value: Value::Const {
                        ty: Type::Int { bits },
                        bits: trunc_bits(bits, ba ^ 0xffff_ffff_ffff_ffffu64),
                    },
                },
            ),
            _ => Err(Error::NullPointer),
        }
    }

    /// Constant-fold an integer comparison into a 1-bit constant; fails
    /// unless both operands are integer constants of one type.
    pub fn icmp(self, pred: Icmp, other: Const) -> (r: Result<Const, Error>)
        ensures
            Self::same_int(self, other) <==> (r matches Ok(c) && c.value_spec() == (Value::Const {
                ty: Type::Int { bits: 1u32 },
                bits: if spec_icmp_bits(
                    pred,
                    self.ty_spec().width(),
                    self.bits_spec(),
                    other.bits_spec(),
                ) {
                    1u64
                } else {
                    0u64
                },
            })),
            r matches Err(e) ==> e is NullPointer,
    {
        match (self.value, other.value) {
            (Value::Const { ty: ta, bits: ba }, Value::Const { ty: tb, bits: bb }) => {
                if ta.is(TypeKind::Integer) && ta == tb {
                    let w: u32 = match ta {
                        Type::Int { bits } => bits,
                        _ => 0,
                    };
                    let c: bool = icmp_bits(pred, w, ba, bb);
                    Ok(
                        Const {
                            value: Value::Const {
                                ty: Type::Int { bits: 1 },
                                bits: if c {
                                    1
                                } else {
                                    0
                                },
                            },
                        },
                    )
                } else {
                    Err(Error::NullPointer)
                }
            },
            _ => Err(Error::NullPointer),
        }
    }
}

} // verus!
