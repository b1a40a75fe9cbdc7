use crate::context::Context;
use crate::error::Error;
use crate::error::Message;
use crate::handle::wrap_inner;
use crate::handle::Handle;
use crate::instr::Block;
use crate::instr::Inst;
use crate::instr::InstV;
use crate::instr::BlockV;
use crate::instr::Op;
use crate::instr::OpV;
use crate::ir::Fcmp;
use crate::ir::Icmp;
use crate::ir::Type;
use crate::ir::TypeKind;
use crate::ir::Value;
use vstd::prelude::*;

verus! {

/// Scope tag given to modules.
pub const MODULE_ADDR: usize = 3;

/// The type of a function: a return type and the parameter types.
#[derive(Debug)]
pub struct FuncType {
    pub(crate) ret: Type,
    pub(crate) params: Vec<Type>,
}

/// Mathematical model of a [`FuncType`].
#[verifier::ext_equal]
pub struct FuncTypeV {
    /// The return type.
    pub ret: Type,
    /// The parameter types.
    pub params: Seq<Type>,
}

impl View for FuncType {
    type V = FuncTypeV;

    closed spec fn view(&self) -> FuncTypeV {
        FuncTypeV { ret: self.ret, params: self.params@ }
    }
}

impl Clone for FuncType {
    fn clone(&self) -> (r: Self)
        ensures
            r@ == self@,
    {
        let mut params: Vec<Type> = Vec::new();
        let mut i: usize = 0;
        while i < self.params.len()
            invariant
                i <= self@.params.len(),
                params@.len() == i,
                forall|j: int| 0 <= j < i ==> params@[j] == self@.params[j],
            decreases self@.params.len() - i,
        {
            params.push(self.params[i]);
            i += 1;
        }
        let r = FuncType { ret: self.ret, params };
        proof {
            assert(r@ =~= self@);
        }
        r
    }
}

impl FuncType {
    /// Create a function type; fails when a parameter has the empty type.
    pub fn new(ret: Type, params: Vec<Type>) -> (r: Result<FuncType, Error>)
        ensures
            (forall|i: int| 0 <= i < params@.len() ==> !((#[trigger] params@[i]) is Void)) <==> (
            r matches Ok(t) && t@ == (FuncTypeV { ret, params: params@ })),
            r matches Err(e) ==> e is NullPointer,
    {
        let mut i: usize = 0;
        while i < params.len()
            invariant
                i <= params.len(),
                forall|j: int| 0 <= j < i ==> !((#[trigger] params@[j]) is Void),
            decreases params@.len() - i,
        {
            if params[i].is(TypeKind::Void) {
                return Err(Error::NullPointer);
            }
            i += 1;
        }
        Ok(FuncType { ret, params })
    }

    /// The return type.
    pub fn return_type(&self) -> (r: Result<Type, Error>)
        ensures
            r == Ok::<Type, Error>(self@.ret),
    {
        Ok(self.ret)
    }

    /// The number of parameters.
    pub fn param_count(&self) -> (r: usize)
        ensures
            r == self@.params.len(),
    {
        self.params.len()
    }

    /// The parameter types.
    pub fn params(&self) -> (r: Vec<Type>)
        ensures
            r@ == self@.params,
    {
        self.params.clone()
    }
}

/// A function handle: the function's position in its module together with
/// its type.
#[derive(Debug)]
pub struct Func {
    pub(crate) idx: usize,
    pub(crate) ty: FuncType,
}

/// Mathematical model of a [`Func`].
#[verifier::ext_equal]
pub struct FuncV {
    /// The function's position in its module.
    pub idx: usize,
    /// The function's type.
    pub ty: FuncTypeV,
}

impl View for Func {
    type V = FuncV;

    closed spec fn view(&self) -> FuncV {
        FuncV { idx: self.idx, ty: self.ty@ }
    }
}

impl Clone for Func {
    fn clone(&self) -> (r: Self)
        ensures
            r@ == self@,
    {
        let r = Func { idx: self.idx, ty: self.ty.clone() };
        proof {
            assert(r@ =~= self@);
        }
        r
    }
}

impl Func {
    /// The function's position in its module.
    pub fn index(&self) -> (r: usize)
        ensures
            r == self@.idx,
    {
        self.idx
    }

    /// The function's type.
    pub fn func_type(&self) -> (r: Result<FuncType, Error>)
        ensures
            r matches Ok(t) && t@ == self@.ty,
    {
        Ok(self.ty.clone())
    }

    /// The number of parameters.
    pub fn param_count(&self) -> (r: usize)
        ensures
            r == self@.ty.params.len(),
    {
        self.ty.params.len()
    }

    /// A single parameter value by position; the foreign graph yields
    /// nothing for a position past the parameter count.
    pub fn param(&self, i: usize) -> (r: Result<Value, Error>)
        ensures
            i < self@.ty.params.len() <==> (r matches Ok(v) && v == (Value::Param {
                func: self@.idx,
                index: i,
                ty: self@.ty.params[i as int],
            })),
            r matches Err(e) ==> e is NullPointer,
    {
        if i < self.ty.params.len() {
            Ok(Value::Param { func: self.idx, index: i, ty: self.ty.params[i] })
        } else {
            Err(Error::NullPointer)
        }
    }

    /// All parameter values, in order.
    pub fn params(&self) -> (r: Vec<Value>)
        ensures
            r@.len() == self@.ty.params.len(),
            forall|i: int|
                0 <= i < r@.len() ==> r@[i] == (Value::Param {
                    func: self@.idx,
                    index: i as usize,
                    ty: self@.ty.params[i],
                }),
    {
        let mut out: Vec<Value> = Vec::new();
        let mut i: usize = 0;
        while i < self.ty.params.len()
            invariant
                i <= self@.ty.params.len(),
                out@.len() == i,
                forall|j: int|
                    0 <= j < i ==> out@[j] == (Value::Param {
                        func: self@.idx,
                        index: j as usize,
                        ty: self@.ty.params[j],
                    }),
            decreases self@.ty.params.len() - i,
        {
            out.push(Value::Param { func: self.idx, index: i, ty: self.ty.params[i] });
            i += 1;
        }
        out
    }

    /// Verify the function against its module, returning an error on a
    /// malformed body.
    pub fn verify(&self, m: &Module) -> (r: Result<(), Error>)
        ensures
            (self@.idx < m@.funcs.len() && func_wf(m@, self@.idx)) <==> r is Ok,
            r matches Err(e) ==> e is InvalidFunction,
    {
        if self.idx < m.funcs.len() && m.check_func(self.idx) {
            Ok(())
        } else {
            Err(Error::InvalidFunction)
        }
    }
}

/// One function definition inside a module.
#[derive(Debug)]
pub struct FuncDef {
    pub(crate) name: String,
    pub(crate) ty: FuncType,
    pub(crate) blocks: Vec<Block>,
    pub(crate) n_values: usize,
}

/// Mathematical model of a [`FuncDef`].
#[verifier::ext_equal]
pub struct FuncDefV {
    /// The function's name.
    pub name: Seq<char>,
    /// The function's type.
    pub ty: FuncTypeV,
    /// The basic blocks; the block at position 0 is the entry.
    pub blocks: Seq<BlockV>,
    /// An exclusive upper bound on the value ids used by the body.
    pub n_values: usize,
}

impl View for FuncDef {
    type V = FuncDefV;

    closed spec fn view(&self) -> FuncDefV {
        FuncDefV {
            name: self.name@,
            ty: self.ty@,
            blocks: self.blocks@.map_values(|b: Block| b@),
            n_values: self.n_values,
        }
    }
}

/// The two-state ownership machine of a module: a module is either free,
/// owned by the caller that holds the value, or already acquired by some
/// other entity such as an execution engine.
#[derive(Clone, Copy, PartialEq, Eq, Structural, Debug)]
pub enum OwnState {
    /// Ownership may be acquired.
    Free,
    /// Ownership has been acquired and not yet given back.
    Owned,
}

/// An intermediate-representation compilation unit: an ordered list of
/// function definitions with single, transferable ownership.
#[derive(Debug)]
pub struct Module {
    pub(crate) handle: Handle,
    pub(crate) ctx: Handle,
    pub(crate) name: String,
    pub(crate) target: String,
    pub(crate) data_layout: String,
    pub(crate) funcs: Vec<FuncDef>,
    pub(crate) state: OwnState,
}

/// Mathematical model of a [`Module`].
#[verifier::ext_equal]
pub struct ModuleV {
    /// The module's own scope tag.
    pub handle: Handle,
    /// Scope tag of the context the module was created in.
    pub ctx: Handle,
    /// The module identifier.
    pub name: Seq<char>,
    /// The target string.
    pub target: Seq<char>,
    /// The data layout string.
    pub data_layout: Seq<char>,
    /// The function definitions, in order.
    pub funcs: Seq<FuncDefV>,
    /// The ownership state.
    pub state: OwnState,
}

impl View for Module {
    type V = ModuleV;

    closed spec fn view(&self) -> ModuleV {
        ModuleV {
            handle: self.handle,
            ctx: self.ctx,
            name: self.name@,
            target: self.target@,
            data_layout: self.data_layout@,
            funcs: self.funcs@.map_values(|f: FuncDef| f@),
            state: self.state,
        }
    }
}

/// Whether a value reference is meaningful inside the function `f` at
/// position `fidx` of its module.
pub open spec fn value_wf(v: Value, f: FuncDefV, fidx: usize) -> bool {
    match v {
        Value::Const { .. } => true,
        Value::Param { func, index, ty } => func == fidx && index < f.ty.params.len() && ty
            == f.ty.params[index as int],
        Value::Instr { id, .. } => id < f.n_values,
    }
}

/// Whether two operands fit one integer binary operation.
pub open spec fn binop_ok(a: Value, b: Value) -> bool {
    a.ty_spec() is Int && a.ty_spec() == b.ty_spec()
}

/// Whether an operation is meaningful inside function `fidx` of module `m`:
/// its operands refer to values of the function, its operand types agree,
/// and its block and function targets exist.
pub open spec fn op_wf(op: OpV, m: ModuleV, fidx: usize) -> bool {
    let f = m.funcs[fidx as int];
    let nblocks = f.blocks.len();
    match op {
        OpV::Add { a, b } => value_wf(a, f, fidx) && value_wf(b, f, fidx) && binop_ok(a, b),
        OpV::Sub { a, b } => value_wf(a, f, fidx) && value_wf(b, f, fidx) && binop_ok(a, b),
        OpV::Mul { a, b } => value_wf(a, f, fidx) && value_wf(b, f, fidx) && binop_ok(a, b),
        OpV::And { a, b } => value_wf(a, f, fidx) && value_wf(b, f, fidx) && binop_ok(a, b),
        OpV::Or { a, b } => value_wf(a, f, fidx) && value_wf(b, f, fidx) && binop_ok(a, b),
        OpV::Xor { a, b } => value_wf(a, f, fidx) && value_wf(b, f, fidx) && binop_ok(a, b),
        OpV::Icmp { a, b, .. } => value_wf(a, f, fidx) && value_wf(b, f, fidx) && binop_ok(a, b),
        OpV::Fcmp { a, b, .. } => value_wf(a, f, fidx) && value_wf(b, f, fidx) && a.ty_spec()
            == b.ty_spec() && (a.ty_spec() is Float || a.ty_spec() is Double),
        OpV::Phi { ty, incoming } => forall|i: int|
            0 <= i < incoming.len() ==> value_wf((#[trigger] incoming[i]).0, f, fidx)
                && incoming[i].0.ty_spec() == ty && incoming[i].1 < nblocks,
        OpV::Br { dest } => dest < nblocks,
        OpV::CondBr { cond, then_dest, else_dest } => value_wf(cond, f, fidx) && cond.ty_spec()
            == (Type::Int { bits: 1u32 }) && then_dest < nblocks && else_dest < nblocks,
        OpV::Ret { val } => match val {
            Option::None => f.ty.ret is Void,
            Option::Some(v) => value_wf(v, f, fidx) && v.ty_spec() == f.ty.ret && !(f.ty.ret
                is Void),
        },
        OpV::Call { func, args } => func < m.funcs.len() && args.len()
            == m.funcs[func as int].ty.params.len() && forall|i: int|
            0 <= i < args.len() ==> value_wf(#[trigger] args[i], f, fidx) && args[i].ty_spec()
                == m.funcs[func as int].ty.params[i],
    }
}

/// Whether the function at position `fidx` of module `m` is well formed:
/// every block is closed by a terminator and every operation is meaningful.
pub open spec fn func_wf(m: ModuleV, fidx: usize) -> bool {
    let f = m.funcs[fidx as int];
    forall|b: int|
        0 <= b < f.blocks.len() ==> (#[trigger] f.blocks[b]).is_closed() && forall|j: int|
            0 <= j < f.blocks[b].instrs.len() ==> op_wf(
                (#[trigger] f.blocks[b].instrs[j]).op,
                m,
                fidx,
            )
}

/// Whether every function of the module is well formed.
pub open spec fn module_wf(m: ModuleV) -> bool {
    forall|fidx: int| 0 <= fidx < m.funcs.len() ==> #[trigger] func_wf(m, fidx as usize)
}

impl Module {
    /// Create a new, empty, free module inside the given context.
    pub fn new(ctx: &Context, name: &str) -> (r: Result<Module, Error>)
        ensures
            r matches Ok(m) && m@ == (ModuleV {
                handle: m@.handle,
                ctx: ctx@.handle,
                name: name@,
                target: Seq::<char>::empty(),
                data_layout: Seq::<char>::empty(),
                funcs: Seq::<FuncDefV>::empty(),
                state: OwnState::Free,
            }),
    {
        let handle = wrap_inner(MODULE_ADDR)?;
        let m = Module {
            handle,
            ctx: ctx.handle(),
            name: String::from_str(name),
            target: String::new(),
            data_layout: String::new(),
            funcs: Vec::new(),
            state: OwnState::Free,
        };
        proof {
            assert(m@ =~~= (ModuleV {
                handle: m@.handle,
                ctx: ctx@.handle,
                name: name@,
                target: Seq::<char>::empty(),
                data_layout: Seq::<char>::empty(),
                funcs: Seq::<FuncDefV>::empty(),
                state: OwnState::Free,
            }));
        }
        Ok(m)
    }

    /// A non-owning alias of the context this module was created in.
    pub fn context(&self) -> (r: Result<Context, Error>)
        ensures
            r matches Ok(c) && c@.handle == self@.ctx && !c@.owns,
    {
        Ok(crate::context::alias_for(self.ctx))
    }

    /// The module identifier.
    pub fn identifier(&self) -> (r: Result<&str, Error>)
        ensures
            r matches Ok(s) && s@ == self@.name,
    {
        Ok(self.name.as_str())
    }

    /// Set the module target string.
    pub fn set_target(&mut self, target: &str)
        ensures
            final(self)@ == (ModuleV { target: target@, ..old(self)@ }),
    {
        self.target = String::from_str(target);
    }

    /// The target string.
    pub fn target(&self) -> (r: Result<&str, Error>)
        ensures
            r matches Ok(s) && s@ == self@.target,
    {
        Ok(self.target.as_str())
    }

    /// Set the module data layout string.
    pub fn set_data_layout(&mut self, layout: &str)
        ensures
            final(self)@ == (ModuleV { data_layout: layout@, ..old(self)@ }),
    {
        self.data_layout = String::from_str(layout);
    }

    /// The data layout string.
    pub fn data_layout(&self) -> (r: Result<&str, Error>)
        ensures
            r matches Ok(s) && s@ == self@.data_layout,
    {
        Ok(self.data_layout.as_str())
    }

    /// Set the 32-bit WASM target and data layout.
    pub fn set_wasm32(&mut self)
        ensures
            final(self)@ == (ModuleV {
                target: "wasm32"@,
                data_layout: "p:32:32:32"@,
                ..old(self)@
            }),
    {
        self.set_target("wasm32");
        self.set_data_layout("p:32:32:32");
    }

    /// The number of functions defined in the module.
    pub fn function_count(&self) -> (r: usize)
        ensures
            r == self@.funcs.len(),
    {
        self.funcs.len()
    }

    /// Define a new function without a body.
    pub fn define_function(&mut self, name: &str, t: FuncType) -> (r: Result<Func, Error>)
        ensures
            r matches Ok(f) && f@ == (FuncV { idx: old(self)@.funcs.len() as usize, ty: t@ }),
            final(self)@ == (ModuleV {
                funcs: old(self)@.funcs.push(
                    FuncDefV {
                        name: name@,
                        ty: t@,
                        blocks: Seq::<BlockV>::empty(),
                        n_values: 0,
                    },
                ),
                ..old(self)@
            }),
    {
        let idx: usize = self.funcs.len();
        let ty_copy = t.clone();
        let ghost tv = t@;
        self.funcs.push(
            FuncDef { name: String::from_str(name), ty: t, blocks: Vec::new(), n_values: 0 },
        );
        proof {
            assert(final(self)@.funcs =~~= old(self)@.funcs.push(
                FuncDefV { name: name@, ty: tv, blocks: Seq::<BlockV>::empty(), n_values: 0 },
            ));
            assert(final(self)@ =~~= (ModuleV {
                funcs: old(self)@.funcs.push(
                    FuncDefV { name: name@, ty: tv, blocks: Seq::<BlockV>::empty(), n_values: 0 },
                ),
                ..old(self)@
            }));
        }
        Ok(Func { idx, ty: ty_copy })
    }

    /// Look a function up by name, yielding the first definition carrying
    /// it; the foreign graph yields nothing for an unknown name.
    pub fn named_function(&self, name: &str) -> (r: Result<Func, Error>)
        ensures
            (exists|i: int|
                0 <= i < self@.funcs.len() && (#[trigger] self@.funcs[i].name) == name@) <==> (
            r matches Ok(f) && 0 <= f@.idx < self@.funcs.len() && self@.funcs[f@.idx as int].name
                == name@ && f@.ty == self@.funcs[f@.idx as int].ty),
            r matches Ok(f) ==> 0 <= f@.idx < self@.funcs.len()
                && self@.funcs[f@.idx as int].name == name@ && f@.ty == self@.funcs[f@.idx as int].ty,
            r matches Ok(f) ==> forall|j: int| 0 <= j < f@.idx ==> (#[trigger] self@.funcs[j].name)
                != name@,
            r matches Err(e) ==> e is NullPointer,
    {
        let target_name: String = String::from_str(name);
        let mut i: usize = 0;
        while i < self.funcs.len()
            invariant
                target_name@ == name@,
                i <= self@.funcs.len(),
                forall|j: int| 0 <= j < i ==> (#[trigger] self@.funcs[j].name) != name@,
            decreases self@.funcs.len() - i,
        {
            if self.funcs[i].name == target_name {
                return Ok(Func { idx: i, ty: self.funcs[i].ty.clone() });
            }
            i += 1;
        }
        Err(Error::NullPointer)
    }

    /// The name of a function of this module.
    pub fn function_name(&self, f: &Func) -> (r: Result<String, Error>)
        ensures
            f@.idx < self@.funcs.len() <==> (r matches Ok(s) && s@ == self@.funcs[f@.idx as int].name),
            r matches Err(e) ==> e is NullPointer,
    {
        if f.idx < self.funcs.len() {
            Ok(self.funcs[f.idx].name.clone())
        } else {
            Err(Error::NullPointer)
        }
    }

    /// The first function of the module; fails when the module is empty.
    pub fn first_function(&self) -> (r: Result<Func, Error>)
        ensures
            self@.funcs.len() > 0 <==> (r matches Ok(f) && f@.idx == 0 && f@.ty == self@.funcs[0].ty),
            r matches Err(e) ==> e is NullPointer,
    {
        if self.funcs.len() > 0 {
            Ok(Func { idx: 0, ty: self.funcs[0].ty.clone() })
        } else {
            Err(Error::NullPointer)
        }
    }

    /// The last function of the module; fails when the module is empty.
    pub fn last_function(&self) -> (r: Result<Func, Error>)
        ensures
            self@.funcs.len() > 0 <==> (r matches Ok(f) && f@.idx == self@.funcs.len() - 1
                && f@.ty == self@.funcs[f@.idx as int].ty),
            r matches Err(e) ==> e is NullPointer,
    {
        if self.funcs.len() > 0 {
            let idx: usize = self.funcs.len() - 1;
            Ok(Func { idx, ty: self.funcs[idx].ty.clone() })
        } else {
            Err(Error::NullPointer)
        }
    }

    /// The function after the given one; fails at the end of the list.
    pub fn next_function(&self, f: &Func) -> (r: Result<Func, Error>)
        ensures
            f@.idx + 1 < self@.funcs.len() <==> (r matches Ok(g) && g@.idx == f@.idx + 1
                && g@.ty == self@.funcs[f@.idx + 1].ty),
            r matches Err(e) ==> e is NullPointer,
    {
        if f.idx >= self.funcs.len() {
            Err(Error::NullPointer)
        } else if f.idx + 1 < self.funcs.len() {
            let idx: usize = f.idx + 1;
            Ok(Func { idx, ty: self.funcs[idx].ty.clone() })
        } else {
            Err(Error::NullPointer)
        }
    }

    /// The function before the given one; fails at the start of the list.
    pub fn prev_function(&self, f: &Func) -> (r: Result<Func, Error>)
        ensures
            (0 < f@.idx && f@.idx <= self@.funcs.len()) <==> (r matches Ok(g) && g@.idx == f@.idx
                - 1 && g@.ty == self@.funcs[f@.idx - 1].ty),
            r matches Err(e) ==> e is NullPointer,
    {
        if 0 < f.idx && f.idx <= self.funcs.len() {
            let idx: usize = f.idx - 1;
            Ok(Func { idx, ty: self.funcs[idx].ty.clone() })
        } else {
            Err(Error::NullPointer)
        }
    }

    /// Acquire ownership of the module: the free module becomes owned;
    /// acquiring an already owned module fails and changes nothing, an
    /// expected, recoverable outcome of ownership contention.
    pub fn acquire(&mut self) -> (r: Result<(), Error>)
        ensures
            old(self)@.state is Free <==> r is Ok,
            r is Ok ==> final(self)@ == (ModuleV { state: OwnState::Owned, ..old(self)@ }),
            r is Err ==> final(self)@ == old(self)@,
            r matches Err(e) ==> e is ModuleIsAlreadyOwned,
            final(self)@ == spec_acquire(old(self)@).0,
            (r is Ok) == spec_acquire(old(self)@).1,
    {
        match self.state {
            OwnState::Free => {
                self.state = OwnState::Owned;
                Ok(())
            },
            OwnState::Owned => Err(Error::ModuleIsAlreadyOwned),
        }
    }

    /// Give ownership of the module back: the module becomes free again.
    pub fn release(&mut self)
        ensures
            final(self)@ == (ModuleV { state: OwnState::Free, ..old(self)@ }),
    {
        self.state = OwnState::Free;
    }

    /// The current ownership state.
    pub fn ownership(&self) -> (r: OwnState)
        ensures
            r == self@.state,
    {
        self.state
    }

    /// Check one value reference of function `fidx`.
    fn check_value(&self, fidx: usize, v: &Value) -> (r: bool)
        requires
            fidx < self@.funcs.len(),
        ensures
            r == value_wf(*v, self@.funcs[fidx as int], fidx),
    {
        let f = &self.funcs[fidx];
        match v {
            Value::Const { .. } => true,
            Value::Param { func, index, ty } => *func == fidx && *index < f.ty.params.len() && *ty
                == f.ty.params[*index],
            Value::Instr { id, .. } => *id < f.n_values,
        }
    }

    /// Check one operation of function `fidx`.
    fn check_op(&self, fidx: usize, op: &Op) -> (r: bool)
        requires
            fidx < self@.funcs.len(),
        ensures
            r == op_wf(op@, self@, fidx),
    {
        let nblocks: usize = self.funcs[fidx].blocks.len();
        match op {
            Op::Add { a, b } => self.check_value(fidx, a) && self.check_value(fidx, b) && a.same_int_type(b),
            Op::Sub { a, b } => self.check_value(fidx, a) && self.check_value(fidx, b) && a.same_int_type(b),
            Op::Mul { a, b } => self.check_value(fidx, a) && self.check_value(fidx, b) && a.same_int_type(b),
            Op::And { a, b } => self.check_value(fidx, a) && self.check_value(fidx, b) && a.same_int_type(b),
            Op::Or { a, b } => self.check_value(fidx, a) && self.check_value(fidx, b) && a.same_int_type(b),
            Op::Xor { a, b } => self.check_value(fidx, a) && self.check_value(fidx, b) && a.same_int_type(b),
            Op::Icmp { a, b, .. } => self.check_value(fidx, a) && self.check_value(fidx, b)
                && a.same_int_type(b),
            Op::Fcmp { a, b, .. } => {
                let ta = match a.type_of() {
                    Ok(t) => t,
                    Err(_) => Type::Void,
                };
                let tb = match b.type_of() {
                    Ok(t) => t,
                    Err(_) => Type::Void,
                };
                self.check_value(fidx, a) && self.check_value(fidx, b) && ta == tb && (ta.is(
                    TypeKind::Float,
                ) || ta.is(TypeKind::Double))
            },
            Op::Phi { ty, incoming } => {
                let mut i: usize = 0;
                let mut ok: bool = true;
                while i < incoming.len()
                    invariant
                        fidx < self@.funcs.len(),
                        i <= incoming@.len(),
                        self@.funcs[fidx as int].blocks.len() == nblocks,
                        ok == (forall|k: int|
                            0 <= k < i ==> value_wf(
                                (#[trigger] incoming@[k]).0,
                                self@.funcs[fidx as int],
                                fidx,
                            ) && incoming@[k].0.ty_spec() == *ty && incoming@[k].1 < nblocks),
                        decreases incoming@.len() - i,
                {
                    let (v, pred) = incoming[i];
                    let tv = match v.type_of() {
                        Ok(t) => t,
                        Err(_) => Type::Void,
                    };
                    ok = ok && self.check_value(fidx, &v) && tv == *ty && pred < nblocks;
                    i += 1;
                }
                ok
            },
            Op::Br { dest } => *dest < nblocks,
            Op::CondBr { cond, then_dest, else_dest } => {
                let tc = match cond.type_of() {
                    Ok(t) => t,
                    Err(_) => Type::Void,
                };
                self.check_value(fidx, cond) && tc == (Type::Int { bits: 1 }) && *then_dest
                    < nblocks && *else_dest < nblocks
            },
            Op::Ret { val } => {
                let fret = self.funcs[fidx].ty.ret;
                match val {
                    Option::None => fret.is(TypeKind::Void),
                    Option::Some(v) => {
                        let tv = match v.type_of() {
                            Ok(t) => t,
                            Err(_) => Type::Void,
                        };
                        self.check_value(fidx, v) && tv == fret && !fret.is(TypeKind::Void)
                    },
                }
            },
            Op::Call { func, args } => {
                if !(*func < self.funcs.len()) {
                    false
                } else if args.len() != self.funcs[*func].ty.params.len() {
                    false
                } else {
                    let mut i: usize = 0;
                    let mut ok: bool = true;
                    while i < args.len()
                        invariant
                            fidx < self@.funcs.len(),
                            (*func) < self@.funcs.len(),
                            i <= args@.len(),
                            args@.len() == self@.funcs[*func as int].ty.params.len(),
                            ok == (forall|k: int|
                                0 <= k < i ==> value_wf(
                                    #[trigger] args@[k],
                                    self@.funcs[fidx as int],
                                    fidx,
                                ) && args@[k].ty_spec() == self@.funcs[*func as int].ty.params[k]),
                            decreases args@.len() - i,
                    {
                        let v = args[i];
                        let tv = match v.type_of() {
                            Ok(t) => t,
                            Err(_) => Type::Void,
                        };
                        ok = ok && self.check_value(fidx, &v) && tv == self.funcs[*func].ty.params[i];
                        i += 1;
                    }
                    ok
                }
            },
        }
    }

    /// Check one function of the module.
    pub(crate) fn check_func(&self, fidx: usize) -> (r: bool)
        requires
            fidx < self@.funcs.len(),
        ensures
            r == func_wf(self@, fidx),
    {
        let nblocks: usize = self.funcs[fidx].blocks.len();
        let mut b: usize = 0;
        while b < nblocks
            invariant
                fidx < self@.funcs.len(),
                nblocks == self@.funcs[fidx as int].blocks.len(),
                b <= nblocks,
                forall|k: int|
                    0 <= k < b ==> (#[trigger] self@.funcs[fidx as int].blocks[k]).is_closed()
                        && forall|j: int|
                        0 <= j < self@.funcs[fidx as int].blocks[k].instrs.len() ==> op_wf(
                            (#[trigger] self@.funcs[fidx as int].blocks[k].instrs[j]).op,
                            self@,
                            fidx,
                        ),
            decreases nblocks - b,
        {
            let ninstrs: usize = self.funcs[fidx].blocks[b].instrs.len();
            if ninstrs == 0 {
                proof {
                    assert(!self@.funcs[fidx as int].blocks[b as int].is_closed());
                    assert(!func_wf(self@, fidx));
                }
                return false;
            }
            let mut j: usize = 0;
            while j < ninstrs
                invariant
                    fidx < self@.funcs.len(),
                    b < self@.funcs[fidx as int].blocks.len(),
                    ninstrs == self@.funcs[fidx as int].blocks[b as int].instrs.len(),
                    ninstrs > 0,
                    j <= ninstrs,
                    forall|k: int|
                        0 <= k < j ==> op_wf(
                            (#[trigger] self@.funcs[fidx as int].blocks[b as int].instrs[k]).op,
                            self@,
                            fidx,
                        ),
                    forall|k: int|
                        0 <= k < j && k < ninstrs - 1 ==> !(#[trigger] self@.funcs[fidx as int].blocks[b as int].instrs[k]).op.is_terminator(),
                    forall|k: int|
                        0 <= k < j && k == ninstrs - 1 ==> (#[trigger] self@.funcs[fidx as int].blocks[b as int].instrs[k]).op.is_terminator(),
                decreases ninstrs - j,
            {
                let inst = &self.funcs[fidx].blocks[b].instrs[j];
                if !self.check_op(fidx, &inst.op) {
                    proof {
                        assert(!op_wf(
                            self@.funcs[fidx as int].blocks[b as int].instrs[j as int].op,
                            self@,
                            fidx,
                        ));
                        assert(!func_wf(self@, fidx));
                    }
                    return false;
                }
                let term: bool = inst.op.terminator();
                if j + 1 < ninstrs {
                    if term {
                        proof {
                            assert(!self@.funcs[fidx as int].blocks[b as int].is_closed());
                            assert(!func_wf(self@, fidx));
                        }
                        return false;
                    }
                } else {
                    if !term {
                        proof {
                            assert(!self@.funcs[fidx as int].blocks[b as int].is_closed());
                            assert(!func_wf(self@, fidx));
                        }
                        return false;
                    }
                }
                j += 1;
            }
            proof {
                assert(self@.funcs[fidx as int].blocks[b as int].is_closed());
            }
            b += 1;
        }
        true
    }

    /// Verify the module, returning a diagnostic on a malformed function.
    pub fn verify(&self) -> (r: Result<(), Error>)
        ensures
            module_wf(self@) <==> r is Ok,
            r matches Err(e) ==> e is Message,
    {
        let mut fidx: usize = 0;
        while fidx < self.funcs.len()
            invariant
                fidx <= self@.funcs.len(),
                forall|k: int| 0 <= k < fidx ==> #[trigger] func_wf(self@, k as usize),
            decreases self@.funcs.len() - fidx,
        {
            if !self.check_func(fidx) {
                proof {
                    assert(!func_wf(self@, (fidx as int) as usize));
                    assert(!module_wf(self@));
                }
                return Err(
                    Error::Message(
                        Message::from_raw(String::from_str("module verification failed")),
                    ),
                );
            }
            fidx += 1;
        }
        Ok(())
    }
}



/// A basic block handle: the block's position in the function body under
/// construction.  Copying the handle never duplicates ownership; the
/// function frees all of its blocks at once.
#[derive(Clone, Copy, PartialEq, Eq, Structural, Debug)]
pub struct BasicBlock {
    /// The block's position in the body.
    pub id: usize,
}

impl BasicBlock {
    /// The block's position in the body.
    pub fn id(&self) -> (r: usize)
        ensures
            r == self.id,
    {
        self.id
    }
}

/// A phi instruction handle: the defined value together with the
/// instruction's place in the body.
#[derive(Clone, Copy, PartialEq, Eq, Structural, Debug)]
pub struct InstrPhi {
    /// The value the phi defines.
    pub value: Value,
    /// The block holding the phi.
    pub block: usize,
    /// The phi's position inside the block.
    pub pos: usize,
}

/// A cursor into a function body under construction: the blocks built so
/// far, the block instructions are currently inserted into, and the next
/// fresh value id.
#[derive(Debug)]
pub struct Builder {
    ctx: Handle,
    func: Option<usize>,
    blocks: Vec<Block>,
    cur: Option<usize>,
    next_id: usize,
}

/// Mathematical model of a [`Builder`].
#[verifier::ext_equal]
pub struct BuilderV {
    /// Scope tag of the context the builder was created from.
    pub ctx: Handle,
    /// The module function the body under construction belongs to.
    pub func: Option<usize>,
    /// The blocks built so far.
    pub blocks: Seq<BlockV>,
    /// The insertion block.
    pub cur: Option<usize>,
    /// The next fresh value id.
    pub next_id: usize,
}

impl View for Builder {
    type V = BuilderV;

    closed spec fn view(&self) -> BuilderV {
        BuilderV {
            ctx: self.ctx,
            func: self.func,
            blocks: self.blocks@.map_values(|b: Block| b@),
            cur: self.cur,
            next_id: self.next_id,
        }
    }
}

impl BuilderV {
    /// The insertion block's position, when there is one.
    pub open spec fn cur_id(self) -> usize {
        match self.cur {
            Option::Some(c) => c,
            Option::None => 0,
        }
    }

    /// Whether an instruction can be inserted: the cursor rests inside the
    /// body and a fresh value id is available.
    pub open spec fn can_emit(self) -> bool {
        match self.cur {
            Option::Some(c) => c < self.blocks.len() && self.next_id < usize::MAX,
            Option::None => false,
        }
    }

    /// The builder with the cursor moved to block `b`.
    pub open spec fn at(self, b: usize) -> BuilderV {
        BuilderV { cur: Option::Some(b), ..self }
    }

    /// The builder with a fresh empty block of the given name appended.
    pub open spec fn appended(self, name: Seq<char>) -> BuilderV {
        BuilderV { blocks: self.blocks.push(BlockV { name, instrs: Seq::empty() }), ..self }
    }

    /// The builder after inserting `op` at the end of the insertion block.
    pub open spec fn emit(self, op: OpV) -> BuilderV {
        let c = self.cur_id() as int;
        BuilderV {
            blocks: self.blocks.update(
                c,
                BlockV {
                    name: self.blocks[c].name,
                    instrs: self.blocks[c].instrs.push(InstV { id: self.next_id, op }),
                },
            ),
            next_id: (self.next_id + 1) as usize,
            ..self
        }
    }

    /// The value defined by the next inserted instruction.
    pub open spec fn emit_value(self, ty: Type) -> Value {
        Value::Instr { id: self.next_id, ty }
    }

    /// Whether `p` still names a phi instruction of this body.
    pub open spec fn phi_target_ok(self, p: InstrPhi) -> bool {
        p.block < self.blocks.len() && p.pos < self.blocks[p.block as int].instrs.len()
            && self.blocks[p.block as int].instrs[p.pos as int].op is Phi
    }

    /// The builder with the incoming pairs of the phi named by `p`
    /// extended by `items`; the builder unchanged when `p` no longer
    /// names a phi.
    pub open spec fn add_incoming_spec(self, p: InstrPhi, items: Seq<(Value, usize)>) -> BuilderV {
        if self.phi_target_ok(p) {
            let blk = self.blocks[p.block as int];
            let inst = blk.instrs[p.pos as int];
            let op = match inst.op {
                OpV::Phi { ty, incoming } => OpV::Phi { ty, incoming: incoming + items },
                _ => inst.op,
            };
            BuilderV {
                blocks: self.blocks.update(
                    p.block as int,
                    BlockV {
                        name: blk.name,
                        instrs: blk.instrs.update(p.pos as int, InstV { id: inst.id, op }),
                    },
                ),
                ..self
            }
        } else {
            self
        }
    }
}

impl Builder {
    /// Create a new builder for the given context, with no body under
    /// construction and no insertion point.
    pub fn new(ctx: &Context) -> (r: Result<Builder, Error>)
        ensures
            r matches Ok(b) && b@ == (BuilderV {
                ctx: ctx@.handle,
                func: Option::None,
                blocks: Seq::<BlockV>::empty(),
                cur: Option::None,
                next_id: 0,
            }),
    {
        let b = Builder { ctx: ctx.handle(), func: None, blocks: Vec::new(), cur: None, next_id: 0 };
        proof {
            assert(b@ =~~= (BuilderV {
                ctx: ctx@.handle,
                func: Option::None,
                blocks: Seq::<BlockV>::empty(),
                cur: Option::None,
                next_id: 0,
            }));
        }
        Ok(b)
    }

    /// A non-owning alias of the context this builder was created from.
    pub fn context(&self) -> (r: Context)
        ensures
            r@.handle == self@.ctx,
            !r@.owns,
    {
        crate::context::alias_for(self.ctx)
    }

    /// Position the builder at the end of the given block.
    pub fn position_at_end(&mut self, block: BasicBlock)
        ensures
            final(self)@ == old(self)@.at(block.id),
    {
        self.cur = Some(block.id);
        proof {
            assert(final(self)@ =~~= old(self)@.at(block.id));
        }
    }

    /// Clear the insertion position.
    pub fn clear_insertion_position(&mut self)
        ensures
            final(self)@ == (BuilderV { cur: Option::None, ..old(self)@ }),
    {
        self.cur = None;
        proof {
            assert(final(self)@ =~~= (BuilderV { cur: Option::None, ..old(self)@ }));
        }
    }

    /// The insertion block; fails when the position has been cleared.
    pub fn insertion_block(&self) -> (r: Result<BasicBlock, Error>)
        ensures
            self@.cur matches Some(c) ==> r == Ok::<BasicBlock, Error>(BasicBlock { id: c }),
            self@.cur is None ==> (r matches Err(e) && e is NullPointer),
    {
        match self.cur {
            Some(c) => Ok(BasicBlock { id: c }),
            None => Err(Error::NullPointer),
        }
    }

    /// Append a fresh empty block of the given name to the body.
    pub fn append_block(&mut self, name: &str) -> (r: Result<BasicBlock, Error>)
        ensures
            r matches Ok(bb) && bb.id as int == old(self)@.blocks.len(),
            final(self)@ == old(self)@.appended(name@),
    {
        let id: usize = self.blocks.len();
        self.blocks.push(Block { name: String::from_str(name), instrs: Vec::new() });
        proof {
            assert(final(self)@ =~~= old(self)@.appended(name@));
        }
        Ok(BasicBlock { id })
    }

    /// Insert one operation at the end of the insertion block, defining a
    /// fresh value of the given type; fails, leaving the body unchanged,
    /// when there is no insertion point.
    fn emit_op(&mut self, op: Op, ty: Type) -> (r: Result<Value, Error>)
        ensures
            old(self)@.can_emit() ==> final(self)@ == old(self)@.emit(op@) && r == Ok::<
                Value,
                Error,
            >(old(self)@.emit_value(ty)),
            !old(self)@.can_emit() ==> final(self)@ == old(self)@ && r == Err::<
                Value,
                Error,
            >(Error::NullPointer),
    {
        let c: usize = match self.cur {
            Some(c) => c,
            None => {
                return Err(Error::NullPointer);
            },
        };
        if !(c < self.blocks.len()) || self.next_id == usize::MAX {
            return Err(Error::NullPointer);
        }
        let id: usize = self.next_id;
        let ghost opv = op@;
        let blk = &mut self.blocks[c];
        blk.instrs.push(Inst { id, op });
        self.next_id = id + 1;
        proof {
            assert(final(self)@.blocks =~~= old(self)@.emit(opv).blocks);
            assert(final(self)@ =~~= old(self)@.emit(opv));
        }
        Ok(Value::Instr { id, ty })
    }

    /// Insert one instruction: integer addition, wrapping at the operand width; fails, leaving the body
    /// unchanged, when there is no insertion point or the operands do not
    /// share one integer type.
    pub fn add(&mut self, a: Value, b: Value, _name: &str) -> (r: Result<Value, Error>)
        ensures
            (old(self)@.can_emit() && a.ty_spec() is Int && a.ty_spec() == b.ty_spec()) ==> final(self)@ == old(self)@.emit(OpV::Add { a, b }) && r == Ok::<Value, Error>(
                old(self)@.emit_value(a.ty_spec()),
            ),
            !(old(self)@.can_emit() && a.ty_spec() is Int && a.ty_spec() == b.ty_spec()) ==> final(self)@ == old(self)@ && r == Err::<Value, Error>(Error::NullPointer),
    {
        if a.same_int_type(&b) {
            let ty = match a.type_of() {
                Ok(t) => t,
                Err(e) => {
                    return Err(e);
                },
            };
            self.emit_op(Op::Add { a, b }, ty)
        } else {
            Err(Error::NullPointer)
        }
    }

    /// Insert one instruction: integer subtraction, wrapping at the operand width; fails, leaving the body
    /// unchanged, when there is no insertion point or the operands do not
    /// share one integer type.
    pub fn sub(&mut self, a: Value, b: Value, _name: &str) -> (r: Result<Value, Error>)
        ensures
            (old(self)@.can_emit() && a.ty_spec() is Int && a.ty_spec() == b.ty_spec()) ==> final(self)@ == old(self)@.emit(OpV::Sub { a, b }) && r == Ok::<Value, Error>(
                old(self)@.emit_value(a.ty_spec()),
            ),
            !(old(self)@.can_emit() && a.ty_spec() is Int && a.ty_spec() == b.ty_spec()) ==> final(self)@ == old(self)@ && r == Err::<Value, Error>(Error::NullPointer),
    {
        if a.same_int_type(&b) {
            let ty = match a.type_of() {
                Ok(t) => t,
                Err(e) => {
                    return Err(e);
                },
            };
            self.emit_op(Op::Sub { a, b }, ty)
        } else {
            Err(Error::NullPointer)
        }
    }

    /// Insert one instruction: integer multiplication, wrapping at the operand width; fails, leaving the body
    /// unchanged, when there is no insertion point or the operands do not
    /// share one integer type.
    pub fn mul(&mut self, a: Value, b: Value, _name: &str) -> (r: Result<Value, Error>)
        ensures
            (old(self)@.can_emit() && a.ty_spec() is Int && a.ty_spec() == b.ty_spec()) ==> final(self)@ == old(self)@.emit(OpV::Mul { a, b }) && r == Ok::<Value, Error>(
                old(self)@.emit_value(a.ty_spec()),
            ),
            !(old(self)@.can_emit() && a.ty_spec() is Int && a.ty_spec() == b.ty_spec()) ==> final(self)@ == old(self)@ && r == Err::<Value, Error>(Error::NullPointer),
    {
        if a.same_int_type(&b) {
            let ty = match a.type_of() {
                Ok(t) => t,
                Err(e) => {
                    return Err(e);
                },
            };
            self.emit_op(Op::Mul { a, b }, ty)
        } else {
            Err(Error::NullPointer)
        }
    }

    /// Insert one instruction: bitwise conjunction; fails, leaving the body
    /// unchanged, when there is no insertion point or the operands do not
    /// share one integer type.
    pub fn and(&mut self, a: Value, b: Value, _name: &str) -> (r: Result<Value, Error>)
        ensures
            (old(self)@.can_emit() && a.ty_spec() is Int && a.ty_spec() == b.ty_spec()) ==> final(self)@ == old(self)@.emit(OpV::And { a, b }) && r == Ok::<Value, Error>(
                old(self)@.emit_value(a.ty_spec()),
            ),
            !(old(self)@.can_emit() && a.ty_spec() is Int && a.ty_spec() == b.ty_spec()) ==> final(self)@ == old(self)@ && r == Err::<Value, Error>(Error::NullPointer),
    {
        if a.same_int_type(&b) {
            let ty = match a.type_of() {
                Ok(t) => t,
                Err(e) => {
                    return Err(e);
                },
            };
            self.emit_op(Op::And { a, b }, ty)
        } else {
            Err(Error::NullPointer)
        }
    }

    /// Insert one instruction: bitwise disjunction; fails, leaving the body
    /// unchanged, when there is no insertion point or the operands do not
    /// share one integer type.
    pub fn or(&mut self, a: Value, b: Value, _name: &str) -> (r: Result<Value, Error>)
        ensures
            (old(self)@.can_emit() && a.ty_spec() is Int && a.ty_spec() == b.ty_spec()) ==> final(self)@ == old(self)@.emit(OpV::Or { a, b }) && r == Ok::<Value, Error>(
                old(self)@.emit_value(a.ty_spec()),
            ),
            !(old(self)@.can_emit() && a.ty_spec() is Int && a.ty_spec() == b.ty_spec()) ==> final(self)@ == old(self)@ && r == Err::<Value, Error>(Error::NullPointer),
    {
        if a.same_int_type(&b) {
            let ty = match a.type_of() {
                Ok(t) => t,
                Err(e) => {
                    return Err(e);
                },
            };
            self.emit_op(Op::Or { a, b }, ty)
        } else {
            Err(Error::NullPointer)
        }
    }

    /// Insert one instruction: bitwise exclusive disjunction; fails, leaving the body
    /// unchanged, when there is no insertion point or the operands do not
    /// share one integer type.
    pub fn xor(&mut self, a: Value, b: Value, _name: &str) -> (r: Result<Value, Error>)
        ensures
            (old(self)@.can_emit() && a.ty_spec() is Int && a.ty_spec() == b.ty_spec()) ==> final(self)@ == old(self)@.emit(OpV::Xor { a, b }) && r == Ok::<Value, Error>(
                old(self)@.emit_value(a.ty_spec()),
            ),
            !(old(self)@.can_emit() && a.ty_spec() is Int && a.ty_spec() == b.ty_spec()) ==> final(self)@ == old(self)@ && r == Err::<Value, Error>(Error::NullPointer),
    {
        if a.same_int_type(&b) {
            let ty = match a.type_of() {
                Ok(t) => t,
                Err(e) => {
                    return Err(e);
                },
            };
            self.emit_op(Op::Xor { a, b }, ty)
        } else {
            Err(Error::NullPointer)
        }
    }

    /// Insert an integer comparison, defining a 1-bit integer; fails,
    /// leaving the body unchanged, when there is no insertion point or the
    /// operands do not share one integer type.
    pub fn icmp(&mut self, pred: Icmp, a: Value, b: Value, _name: &str) -> (r: Result<
        Value,
        Error,
    >)
        ensures
            (old(self)@.can_emit() && a.ty_spec() is Int && a.ty_spec() == b.ty_spec()) ==> final(self)@ == old(self)@.emit(OpV::Icmp { pred, a, b }) && r == Ok::<Value, Error>(
                old(self)@.emit_value(Type::Int { bits: 1u32 }),
            ),
            !(old(self)@.can_emit() && a.ty_spec() is Int && a.ty_spec() == b.ty_spec()) ==> final(self)@ == old(self)@ && r == Err::<Value, Error>(Error::NullPointer),
    {
        if a.same_int_type(&b) {
            self.emit_op(Op::Icmp { pred, a, b }, Type::Int { bits: 1 })
        } else {
            Err(Error::NullPointer)
        }
    }

    /// Insert a floating point comparison on raw bit patterns, defining a
    /// 1-bit integer; fails, leaving the body unchanged, when there is no
    /// insertion point or the operands do not share one floating point
    /// type.
    pub fn fcmp(&mut self, pred: Fcmp, a: Value, b: Value, _name: &str) -> (r: Result<
        Value,
        Error,
    >)
        ensures
            (old(self)@.can_emit() && a.ty_spec() == b.ty_spec() && (a.ty_spec() is Float
                || a.ty_spec() is Double)) ==> final(self)@ == old(self)@.emit(
                OpV::Fcmp { pred, a, b },
            ) && r == Ok::<Value, Error>(old(self)@.emit_value(Type::Int { bits: 1u32 })),
            !(old(self)@.can_emit() && a.ty_spec() == b.ty_spec() && (a.ty_spec() is Float
                || a.ty_spec() is Double)) ==> final(self)@ == old(self)@ && r == Err::<
                Value,
                Error,
            >(Error::NullPointer),
    {
        let ta = match a.type_of() {
            Ok(t) => t,
            Err(e) => {
                return Err(e);
            },
        };
        let tb = match b.type_of() {
            Ok(t) => t,
            Err(e) => {
                return Err(e);
            },
        };
        if ta == tb && (ta.is(crate::ir::TypeKind::Float) || ta.is(crate::ir::TypeKind::Double)) {
            self.emit_op(Op::Fcmp { pred, a, b }, Type::Int { bits: 1 })
        } else {
            Err(Error::NullPointer)
        }
    }

    /// Insert an unconditional branch to the given block; fails, leaving
    /// the body unchanged, when there is no insertion point.
    pub fn br(&mut self, bb: BasicBlock) -> (r: Result<Value, Error>)
        ensures
            old(self)@.can_emit() ==> final(self)@ == old(self)@.emit(OpV::Br { dest: bb.id })
                && r == Ok::<Value, Error>(old(self)@.emit_value(Type::Void)),
            !old(self)@.can_emit() ==> final(self)@ == old(self)@ && r == Err::<Value, Error>(
                Error::NullPointer,
            ),
    {
        self.emit_op(Op::Br { dest: bb.id }, Type::Void)
    }

    /// Insert a conditional branch on a 1-bit integer; fails, leaving the
    /// body unchanged, when there is no insertion point or the condition
    /// is not a 1-bit integer.
    pub fn cond_br(&mut self, if_: Value, then_: BasicBlock, else_: BasicBlock) -> (r: Result<
        Value,
        Error,
    >)
        ensures
            (old(self)@.can_emit() && if_.ty_spec() == (Type::Int { bits: 1u32 })) ==> final(self)@
                == old(self)@.emit(
                OpV::CondBr { cond: if_, then_dest: then_.id, else_dest: else_.id },
            ) && r == Ok::<Value, Error>(old(self)@.emit_value(Type::Void)),
            !(old(self)@.can_emit() && if_.ty_spec() == (Type::Int { bits: 1u32 })) ==> final(self)@
                == old(self)@ && r == Err::<Value, Error>(Error::NullPointer),
    {
        let tc = match if_.type_of() {
            Ok(t) => t,
            Err(e) => {
                return Err(e);
            },
        };
        if tc == (Type::Int { bits: 1 }) {
            self.emit_op(Op::CondBr { cond: if_, then_dest: then_.id, else_dest: else_.id }, Type::Void)
        } else {
            Err(Error::NullPointer)
        }
    }

    /// Insert a return of the given value; fails, leaving the body
    /// unchanged, when there is no insertion point.
    pub fn ret(&mut self, a: Value) -> (r: Result<Value, Error>)
        ensures
            old(self)@.can_emit() ==> final(self)@ == old(self)@.emit(
                OpV::Ret { val: Option::Some(a) },
            ) && r == Ok::<Value, Error>(old(self)@.emit_value(Type::Void)),
            !old(self)@.can_emit() ==> final(self)@ == old(self)@ && r == Err::<Value, Error>(
                Error::NullPointer,
            ),
    {
        self.emit_op(Op::Ret { val: Some(a) }, Type::Void)
    }

    /// Insert a return without a value; fails, leaving the body
    /// unchanged, when there is no insertion point.
    pub fn ret_void(&mut self) -> (r: Result<Value, Error>)
        ensures
            old(self)@.can_emit() ==> final(self)@ == old(self)@.emit(
                OpV::Ret { val: Option::None },
            ) && r == Ok::<Value, Error>(old(self)@.emit_value(Type::Void)),
            !old(self)@.can_emit() ==> final(self)@ == old(self)@ && r == Err::<Value, Error>(
                Error::NullPointer,
            ),
    {
        self.emit_op(Op::Ret { val: None }, Type::Void)
    }

    /// Insert a call of the given module function; fails, leaving the
    /// body unchanged, when there is no insertion point or the argument
    /// types do not match the function's parameter types.
    pub fn call(&mut self, f: &Func, args: Vec<Value>, _name: &str) -> (r: Result<
        Value,
        Error,
    >)
        ensures
            (old(self)@.can_emit() && args@.len() == f@.ty.params.len() && (forall|i: int|
                0 <= i < args@.len() ==> (#[trigger] args@[i]).ty_spec() == f@.ty.params[i]))
                ==> final(self)@ == old(self)@.emit(OpV::Call { func: f@.idx, args: args@ }) && r
                == Ok::<Value, Error>(old(self)@.emit_value(f@.ty.ret)),
            !(old(self)@.can_emit() && args@.len() == f@.ty.params.len() && (forall|i: int|
                0 <= i < args@.len() ==> (#[trigger] args@[i]).ty_spec() == f@.ty.params[i]))
                ==> final(self)@ == old(self)@ && r == Err::<Value, Error>(Error::NullPointer),
    {
        if args.len() != f.param_count() {
            return Err(Error::NullPointer);
        }
        let params = f.params();
        let mut i: usize = 0;
        while i < args.len()
            invariant
                i <= args@.len(),
                args@.len() == f@.ty.params.len(),
                params@.len() == f@.ty.params.len(),
                forall|j: int|
                    0 <= j < params@.len() ==> (#[trigger] params@[j]).ty_spec()
                        == f@.ty.params[j],
                forall|j: int| 0 <= j < i ==> (#[trigger] args@[j]).ty_spec() == f@.ty.params[j],
            decreases args@.len() - i,
        {
            let ta = match args[i].type_of() {
                Ok(t) => t,
                Err(_) => Type::Void,
            };
            let tp = match params[i].type_of() {
                Ok(t) => t,
                Err(_) => Type::Void,
            };
            if ta != tp {
                return Err(Error::NullPointer);
            }
            i += 1;
        }
        let ret = match f.func_type() {
            Ok(t) => match t.return_type() {
                Ok(rt) => rt,
                Err(e) => {
                    return Err(e);
                },
            },
            Err(e) => {
                return Err(e);
            },
        };
        let idx = f.index();
        self.emit_op(Op::Call { func: idx, args }, ret)
    }

    /// Insert a phi with no incoming pairs yet, defining a value of the
    /// given type; fails, leaving the body unchanged, when there is no
    /// insertion point.
    pub fn phi(&mut self, ty: Type, _name: &str) -> (r: Result<InstrPhi, Error>)
        ensures
            old(self)@.can_emit() ==> final(self)@ == old(self)@.emit(
                OpV::Phi { ty, incoming: Seq::empty() },
            ) && r == Ok::<InstrPhi, Error>(
                InstrPhi {
                    value: old(self)@.emit_value(ty),
                    block: old(self)@.cur_id(),
                    pos: old(self)@.blocks[old(self)@.cur_id() as int].instrs.len() as usize,
                },
            ),
            !old(self)@.can_emit() ==> final(self)@ == old(self)@ && r == Err::<InstrPhi, Error>(
                Error::NullPointer,
            ),
    {
        let c: usize = match self.cur {
            Some(c) => c,
            None => {
                return Err(Error::NullPointer);
            },
        };
        if !(c < self.blocks.len()) {
            return Err(Error::NullPointer);
        }
        let pos: usize = self.blocks[c].instrs.len();
        let empty_inc: Vec<(Value, usize)> = Vec::new();
        let ghost opv = OpV::Phi { ty, incoming: empty_inc@ };
        let v = self.emit_op(Op::Phi { ty, incoming: empty_inc }, ty)?;
        proof {
            assert(opv =~~= OpV::Phi { ty, incoming: Seq::empty() });
        }
        Ok(InstrPhi { value: v, block: c, pos })
    }
}

/// Copy a list of incoming pairs.
fn copy_pairs(v: &Vec<(Value, usize)>) -> (r: Vec<(Value, usize)>)
    ensures
        r@ == v@,
{
    let mut out: Vec<(Value, usize)> = Vec::new();
    let mut i: usize = 0;
    while i < v.len()
        invariant
            i <= v@.len(),
            out@.len() == i,
            forall|j: int| 0 <= j < i ==> out@[j] == v@[j],
        decreases v@.len() - i,
    {
        out.push(v[i]);
        i += 1;
    }
    proof {
        assert(out@ =~= v@);
    }
    out
}

/// The incoming pairs named by a list of (value, block handle) items.
pub open spec fn spec_pairs(items: Seq<(Value, BasicBlock)>) -> Seq<(Value, usize)> {
    items.map_values(|p: (Value, BasicBlock)| (p.0, p.1.id))
}

impl InstrPhi {
    /// The value the phi defines.
    pub fn to_value(&self) -> (r: Value)
        ensures
            r == self.value,
    {
        self.value
    }

    /// Add incoming (value, predecessor block) pairs to the phi; the body
    /// is unchanged when the handle no longer names a phi of it.
    pub fn add_incoming(&self, b: &mut Builder, items: &Vec<(Value, BasicBlock)>)
        ensures
            final(b)@ == old(b)@.add_incoming_spec(*self, spec_pairs(items@)),
    {
        if !(self.block < b.blocks.len()) {
            proof {
                assert(final(b)@ =~~= old(b)@.add_incoming_spec(*self, spec_pairs(items@)));
            }
            return;
        }
        if !(self.pos < b.blocks[self.block].instrs.len()) {
            proof {
                assert(final(b)@ =~~= old(b)@.add_incoming_spec(*self, spec_pairs(items@)));
            }
            return;
        }
        let iid: usize = b.blocks[self.block].instrs[self.pos].id;
        let (tyv, mut inc): (Type, Vec<(Value, usize)>) = match &b.blocks[self.block].instrs[self.pos].op {
            Op::Phi { ty, incoming } => (*ty, copy_pairs(incoming)),
            _ => {
                proof {
                    assert(final(b)@ =~~= old(b)@.add_incoming_spec(*self, spec_pairs(items@)));
                }
                return;
            },
        };
        let mut i: usize = 0;
        while i < items.len()
            invariant
                i <= items@.len(),
                inc@ == old(b)@.blocks[self.block as int].instrs[self.pos as int].op->Phi_incoming
                    + spec_pairs(items@.take(i as int)),
            decreases items@.len() - i,
        {
            let (v, bb) = items[i];
            inc.push((v, bb.id));
            proof {
                assert(spec_pairs(items@.take(i + 1)) =~= spec_pairs(items@.take(i as int)).push(
                    (items@[i as int].0, items@[i as int].1.id),
                ));
                assert(inc@ =~= old(b)@.blocks[self.block as int].instrs[self.pos as int].op->Phi_incoming
                    + spec_pairs(items@.take(i + 1)));
            }
            i += 1;
        }
        let blk = &mut b.blocks[self.block];
        let new_inst = Inst { id: iid, op: Op::Phi { ty: tyv, incoming: inc } };
        blk.instrs[self.pos] = new_inst;
        proof {
            assert(items@.take(items@.len() as int) =~= items@);
            assert(final(b)@.blocks =~~= old(b)@.add_incoming_spec(*self, spec_pairs(items@)).blocks);
            assert(final(b)@ =~~= old(b)@.add_incoming_spec(*self, spec_pairs(items@)));
        }
    }

    /// The number of incoming pairs of the phi inside the given body; 0
    /// when the handle no longer names a phi.
    pub fn count_incoming(&self, b: &Builder) -> (r: usize)
        ensures
            b@.phi_target_ok(*self) ==> r == b@.blocks[self.block as int].instrs[self.pos as int].op->Phi_incoming.len(),
            !b@.phi_target_ok(*self) ==> r == 0,
    {
        if !(self.block < b.blocks.len()) {
            return 0;
        }
        if !(self.pos < b.blocks[self.block].instrs.len()) {
            return 0;
        }
        match &b.blocks[self.block].instrs[self.pos].op {
            Op::Phi { incoming, .. } => incoming.len(),
            _ => 0,
        }
    }

    /// The incoming value at the given position; fails when the handle no
    /// longer names a phi or the position is out of range.
    pub fn incoming_value(&self, b: &Builder, index: usize) -> (r: Result<Value, Error>)
        ensures
            (b@.phi_target_ok(*self) && index
                < b@.blocks[self.block as int].instrs[self.pos as int].op->Phi_incoming.len()) ==> r
                == Ok::<Value, Error>(
                b@.blocks[self.block as int].instrs[self.pos as int].op->Phi_incoming[index as int].0,
            ),
            !(b@.phi_target_ok(*self) && index
                < b@.blocks[self.block as int].instrs[self.pos as int].op->Phi_incoming.len()) ==> r
                == Err::<Value, Error>(Error::NullPointer),
    {
        if !(self.block < b.blocks.len()) {
            return Err(Error::NullPointer);
        }
        if !(self.pos < b.blocks[self.block].instrs.len()) {
            return Err(Error::NullPointer);
        }
        match &b.blocks[self.block].instrs[self.pos].op {
            Op::Phi { incoming, .. } => {
                if index < incoming.len() {
                    Ok(incoming[index].0)
                } else {
                    Err(Error::NullPointer)
                }
            },
            _ => Err(Error::NullPointer),
        }
    }

    /// The incoming predecessor block at the given position; fails when
    /// the handle no longer names a phi or the position is out of range.
    pub fn incoming_block(&self, b: &Builder, index: usize) -> (r: Result<BasicBlock, Error>)
        ensures
            (b@.phi_target_ok(*self) && index
                < b@.blocks[self.block as int].instrs[self.pos as int].op->Phi_incoming.len()) ==> r
                == Ok::<BasicBlock, Error>(
                BasicBlock {
                    id: b@.blocks[self.block as int].instrs[self.pos as int].op->Phi_incoming[index as int].1,
                },
            ),
            !(b@.phi_target_ok(*self) && index
                < b@.blocks[self.block as int].instrs[self.pos as int].op->Phi_incoming.len()) ==> r
                == Err::<BasicBlock, Error>(Error::NullPointer),
    {
        if !(self.block < b.blocks.len()) {
            return Err(Error::NullPointer);
        }
        if !(self.pos < b.blocks[self.block].instrs.len()) {
            return Err(Error::NullPointer);
        }
        match &b.blocks[self.block].instrs[self.pos].op {
            Op::Phi { incoming, .. } => {
                if index < incoming.len() {
                    Ok(BasicBlock { id: incoming[index].1 })
                } else {
                    Err(Error::NullPointer)
                }
            },
            _ => Err(Error::NullPointer),
        }
    }
}

/// The builder state handed to the then-closure: the body with a fresh
/// "then" block appended and the cursor moved onto it.
pub open spec fn ite_then_entry(b0: BuilderV) -> BuilderV {
    b0.appended("then"@).at(b0.blocks.len() as usize)
}

/// The builder state handed to the else-closure: the state left by the
/// then-closure with a fresh "else" block appended and the cursor on it.
pub open spec fn ite_else_entry(b2: BuilderV) -> BuilderV {
    b2.appended("else"@).at(b2.blocks.len() as usize)
}

/// Success conditions for wiring the conditional once both closures have
/// run: every recorded block lies inside the body, the condition is a
/// 1-bit integer, and fresh value ids remain for the four inserted
/// instructions.
pub open spec fn ite_wire_ok(b0: BuilderV, b2: BuilderV, b4: BuilderV, cond: Value) -> bool {
    let n5 = b4.blocks.len() + 1;
    &&& b0.cur is Some
    &&& b2.cur is Some
    &&& b4.cur is Some
    &&& cond.ty_spec() == (Type::Int { bits: 1u32 })
    &&& b0.cur_id() < n5
    &&& b2.cur_id() < n5
    &&& b4.cur_id() < n5
    &&& b4.next_id + 4 <= usize::MAX
}

/// The wired builder just before the merge phi is inserted: the "ifcont"
/// block appended, the conditional branch placed in the starting block,
/// and each closure's exit block closed by a branch to the merge block,
/// with the cursor on the merge block.
pub open spec fn ite_pre_phi(b0: BuilderV, b2: BuilderV, b4: BuilderV, cond: Value) -> BuilderV {
    let then_bb = b0.blocks.len() as usize;
    let else_bb = b2.blocks.len() as usize;
    let merge = b4.blocks.len() as usize;
    b4.appended("ifcont"@).at(b0.cur_id()).emit(
        OpV::CondBr { cond, then_dest: then_bb, else_dest: else_bb },
    ).at(b2.cur_id()).emit(OpV::Br { dest: merge }).at(b4.cur_id()).emit(
        OpV::Br { dest: merge },
    ).at(merge)
}

/// The finished builder: the merge phi inserted with one incoming pair
/// per closure exit block.
pub open spec fn ite_merge_state(
    b0: BuilderV,
    b2: BuilderV,
    tv: Value,
    b4: BuilderV,
    ev: Value,
    cond: Value,
) -> BuilderV {
    ite_pre_phi(b0, b2, b4, cond).emit(
        OpV::Phi {
            ty: tv.ty_spec(),
            incoming: seq![(tv, b2.cur_id()), (ev, b4.cur_id())],
        },
    )
}

/// The phi handle returned for the wired conditional.
pub open spec fn ite_phi(
    b0: BuilderV,
    b2: BuilderV,
    tv: Value,
    b4: BuilderV,
    cond: Value,
) -> InstrPhi {
    let pre = ite_pre_phi(b0, b2, b4, cond);
    let merge = b4.blocks.len() as usize;
    InstrPhi {
        value: Value::Instr { id: pre.next_id, ty: tv.ty_spec() },
        block: merge,
        pos: pre.blocks[merge as int].instrs.len() as usize,
    }
}

impl Builder {
    /// Lower a two-armed conditional into branch-and-merge form.
    ///
    /// Three fresh blocks are appended, one per arm and one to merge; the
    /// starting block is closed by a conditional branch to the arms; each
    /// arm closure runs with the cursor on its fresh block; and the block
    /// each closure *leaves* the cursor in — not the arm's entry block,
    /// which may differ when the closure itself lowered nested control
    /// flow — is closed by a branch to the merge block and feeds the
    /// merge phi its incoming pair.  The phi carries the then-value's
    /// type, and the builder is left on the merge block.
    ///
    /// A closure failure propagates at once, with the body left partially
    /// built; wiring fails with a null-handle error when a closure leaves
    /// no usable cursor, the condition is not a 1-bit integer, or value
    /// ids run out.
    pub fn if_then_else<TF, EF>(self, cond: Value, then_fn: TF, else_fn: EF) -> (r: (
        Builder,
        Result<InstrPhi, Error>,
    )) where
        TF: FnOnce(Builder) -> (Builder, Result<Value, Error>),
        EF: FnOnce(Builder) -> (Builder, Result<Value, Error>),

        requires
            forall|b1: Builder|
                b1@ == ite_then_entry(self@) ==> #[trigger] call_requires(then_fn, (b1,)),
            forall|b1: Builder, b2: Builder, tv: Value|
                b1@ == ite_then_entry(self@) && #[trigger] call_ensures(
                    then_fn,
                    (b1,),
                    (b2, Ok(tv)),
                ) ==> forall|b3: Builder|
                    b3@ == ite_else_entry(b2@) ==> #[trigger] call_requires(else_fn, (b3,)),
        ensures
            r.1 matches Ok(p) ==> exists|
                b1: Builder,
                b2: Builder,
                b3: Builder,
                b4: Builder,
                tv: Value,
                ev: Value,
            |
                {
                    &&& b1@ == ite_then_entry(self@)
                    &&& #[trigger] call_ensures(then_fn, (b1,), (b2, Ok(tv)))
                    &&& b3@ == ite_else_entry(b2@)
                    &&& #[trigger] call_ensures(else_fn, (b3,), (b4, Ok(ev)))
                    &&& ite_wire_ok(self@, b2@, b4@, cond)
                    &&& r.0@ == ite_merge_state(self@, b2@, tv, b4@, ev, cond)
                    &&& p == ite_phi(self@, b2@, tv, b4@, cond)
                },
            self@.cur is None ==> r.0@ == self@ && (r.1 matches Err(e) && e is NullPointer),
            r.1 matches Err(e) ==> self@.cur is Some ==> ((exists|b1: Builder, b2: Builder|
                b1@ == ite_then_entry(self@) && #[trigger] call_ensures(
                    then_fn,
                    (b1,),
                    (b2, Err(e)),
                ) && r.0 == b2) || (exists|b1: Builder, b2: Builder, tv: Value|
                b1@ == ite_then_entry(self@) && #[trigger] call_ensures(
                    then_fn,
                    (b1,),
                    (b2, Ok(tv)),
                ) && b2@.cur is None && e is NullPointer && r.0 == b2) || (exists|
                b1: Builder,
                b2: Builder,
                b3: Builder,
                b4: Builder,
                tv: Value,
            |
                b1@ == ite_then_entry(self@) && #[trigger] call_ensures(
                    then_fn,
                    (b1,),
                    (b2, Ok(tv)),
                ) && b3@ == ite_else_entry(b2@) && #[trigger] call_ensures(
                    else_fn,
                    (b3,),
                    (b4, Err(e)),
                ) && r.0 == b4) || (exists|
                b1: Builder,
                b2: Builder,
                b3: Builder,
                b4: Builder,
                tv: Value,
                ev: Value,
            |
                b1@ == ite_then_entry(self@) && #[trigger] call_ensures(
                    then_fn,
                    (b1,),
                    (b2, Ok(tv)),
                ) && b3@ == ite_else_entry(b2@) && #[trigger] call_ensures(
                    else_fn,
                    (b3,),
                    (b4, Ok(ev)),
                ) && !ite_wire_ok(self@, b2@, b4@, cond) && e is NullPointer)),
    {
        let ghost b0 = self@;
        let mut b = self;
        let start = match b.insertion_block() {
            Ok(x) => x,
            Err(e) => {
                return (b, Err(e));
            },
        };
        let then_bb = match b.append_block("then") {
            Ok(x) => x,
            Err(e) => {
                return (b, Err(e));
            },
        };
        b.position_at_end(then_bb);
        proof {
            assert(b@ =~~= ite_then_entry(b0));
        }
        let ghost gb1 = b;
        let (b2r, tr) = then_fn(b);
        let mut b = b2r;
        let ghost gb2 = b;
        let then_val = match tr {
            Ok(v) => v,
            Err(e) => {
                return (b, Err(e));
            },
        };
        let then_exit = match b.insertion_block() {
            Ok(x) => x,
            Err(e) => {
                return (b, Err(e));
            },
        };
        let else_bb = match b.append_block("else") {
            Ok(x) => x,
            Err(e) => {
                return (b, Err(e));
            },
        };
        b.position_at_end(else_bb);
        proof {
            assert(b@ =~~= ite_else_entry(gb2@));
        }
        let ghost gb3 = b;
        let (b4r, er) = else_fn(b);
        let mut b = b4r;
        let ghost gb4 = b;
        let else_val = match er {
            Ok(v) => v,
            Err(e) => {
                return (b, Err(e));
            },
        };
        let else_exit = match b.insertion_block() {
            Ok(x) => x,
            Err(e) => {
                return (b, Err(e));
            },
        };
        let merge_bb = match b.append_block("ifcont") {
            Ok(x) => x,
            Err(e) => {
                return (b, Err(e));
            },
        };
        b.position_at_end(merge_bb);
        b.position_at_end(start);
        match b.cond_br(cond, then_bb, else_bb) {
            Ok(_) => (),
            Err(e) => {
                return (b, Err(e));
            },
        };
        b.position_at_end(then_exit);
        match b.br(merge_bb) {
            Ok(_) => (),
            Err(e) => {
                return (b, Err(e));
            },
        };
        b.position_at_end(else_exit);
        match b.br(merge_bb) {
            Ok(_) => (),
            Err(e) => {
                return (b, Err(e));
            },
        };
        b.position_at_end(merge_bb);
        proof {
            assert(b@ =~~= ite_pre_phi(b0, gb2@, gb4@, cond));
        }
        let ty = match then_val.type_of() {
            Ok(t) => t,
            Err(e) => {
                return (b, Err(e));
            },
        };
        let phi = match b.phi(ty, "ite") {
            Ok(p) => p,
            Err(e) => {
                return (b, Err(e));
            },
        };
        let mut items: Vec<(Value, BasicBlock)> = Vec::new();
        items.push((then_val, then_exit));
        items.push((else_val, else_exit));
        phi.add_incoming(&mut b, &items);
        proof {
            assert(spec_pairs(items@) =~= seq![
                (then_val, gb2@.cur_id()),
                (else_val, gb4@.cur_id()),
            ]);
            assert(b@ =~~= ite_merge_state(b0, gb2@, then_val, gb4@, else_val, cond));
            assert(phi == ite_phi(b0, gb2@, then_val, gb4@, cond));
        }
        (b, Ok(phi))
    }
}

/// Entry conditions for lowering a counted loop: a usable cursor and
/// fresh value ids for the entry branch and the induction phi.
pub open spec fn fl_entry_ok(b0: BuilderV) -> bool {
    &&& b0.cur is Some
    &&& b0.cur_id() < b0.blocks.len() + 1
    &&& b0.next_id + 2 <= usize::MAX
}

/// The builder just before the induction phi is inserted: a fresh "loop"
/// block appended, the preheader closed by a branch into it, and the
/// cursor on the loop block.
pub open spec fn fl_pre_phi(b0: BuilderV) -> BuilderV {
    let n0 = b0.blocks.len() as usize;
    b0.appended("loop"@).emit(OpV::Br { dest: n0 }).at(n0)
}

/// The phi handle of the induction variable.
pub open spec fn fl_var_phi(b0: BuilderV, start: Value) -> InstrPhi {
    let n0 = b0.blocks.len() as usize;
    let pre = fl_pre_phi(b0);
    InstrPhi {
        value: Value::Instr { id: pre.next_id, ty: start.ty_spec() },
        block: n0,
        pos: pre.blocks[n0 as int].instrs.len() as usize,
    }
}

/// The induction variable's value.
pub open spec fn fl_var(b0: BuilderV, start: Value) -> Value {
    fl_var_phi(b0, start).value
}

/// The builder state handed to the loop closures: the induction phi
/// inserted with its first incoming pair, the start value from the
/// preheader.
pub open spec fn fl_body_entry(b0: BuilderV, start: Value) -> BuilderV {
    fl_pre_phi(b0).emit(
        OpV::Phi { ty: start.ty_spec(), incoming: seq![(start, b0.cur_id())] },
    )
}

/// Success conditions for wiring the loop exit once the closures have
/// run: a usable cursor for the backedge branch and a 1-bit continuation
/// predicate.
pub open spec fn fl_wire_ok(b4: BuilderV, c: Value) -> bool {
    &&& b4.cur is Some
    &&& b4.cur_id() < b4.blocks.len() + 1
    &&& c.ty_spec() == (Type::Int { bits: 1u32 })
    &&& b4.next_id < usize::MAX
}

/// The finished builder: a fresh "after" block appended, the block the
/// condition evaluation ended in closed by a conditional branch back to
/// the loop or out to the after block, the cursor on the after block,
/// and the stepped value added to the induction phi as the incoming pair
/// from that closing block.
pub open spec fn fl_final(
    b0: BuilderV,
    start: Value,
    b4: BuilderV,
    next: Value,
    c: Value,
) -> BuilderV {
    let n0 = b0.blocks.len() as usize;
    let after = b4.blocks.len() as usize;
    let w = b4.appended("after"@).emit(
        OpV::CondBr { cond: c, then_dest: n0, else_dest: after },
    ).at(after);
    w.add_incoming_spec(fl_var_phi(b0, start), seq![(next, b4.cur_id())])
}

impl Builder {
    /// Lower a counted loop into branch-and-phi form.
    ///
    /// A fresh loop block is appended and entered by a branch from the
    /// current block; an induction phi typed like `start` receives the
    /// start value from that preheader.  The body closure runs first, for
    /// its side effects only; the step closure computes the next
    /// induction value from the variable; and the condition closure
    /// computes the continuation predicate from that *stepped* value.
    /// The block the builder ends in after those evaluations — not the
    /// loop's entry block — is closed by a conditional branch that
    /// re-enters the loop or leaves for a fresh after block, and feeds
    /// the induction phi the stepped value as its second incoming pair.
    /// The loop's result is the induction variable, with the builder
    /// left on the after block.
    ///
    /// A closure failure propagates at once, with the body left
    /// partially built; wiring fails with a null-handle error when a
    /// closure leaves no usable cursor, the predicate is not a 1-bit
    /// integer, or value ids run out.
    pub fn for_loop<CF, SF, BF>(self, start: Value, cond_fn: CF, step_fn: SF, body_fn: BF) -> (r: (
        Builder,
        Result<Value, Error>,
    )) where
        CF: FnOnce(Builder, Value) -> (Builder, Result<Value, Error>),
        SF: FnOnce(Builder, Value) -> (Builder, Result<Value, Error>),
        BF: FnOnce(Builder, Value) -> (Builder, Result<Value, Error>),

        requires
            forall|b1: Builder|
                b1@ == fl_body_entry(self@, start) ==> #[trigger] call_requires(
                    body_fn,
                    (b1, fl_var(self@, start)),
                ),
            forall|b1: Builder, b2: Builder, x: Value|
                b1@ == fl_body_entry(self@, start) && #[trigger] call_ensures(
                    body_fn,
                    (b1, fl_var(self@, start)),
                    (b2, Ok(x)),
                ) ==> #[trigger] call_requires(step_fn, (b2, fl_var(self@, start))),
            forall|b1: Builder, b2: Builder, x: Value, b3: Builder, next: Value|
                b1@ == fl_body_entry(self@, start) && #[trigger] call_ensures(
                    body_fn,
                    (b1, fl_var(self@, start)),
                    (b2, Ok(x)),
                ) && #[trigger] call_ensures(
                    step_fn,
                    (b2, fl_var(self@, start)),
                    (b3, Ok(next)),
                ) ==> #[trigger] call_requires(cond_fn, (b3, next)),
        ensures
            r.1 matches Ok(v) ==> fl_entry_ok(self@) && v == fl_var(self@, start) && exists|
                b1: Builder,
                b2: Builder,
                x: Value,
                b3: Builder,
                next: Value,
                b4: Builder,
                c: Value,
            |
                {
                    &&& b1@ == fl_body_entry(self@, start)
                    &&& #[trigger] call_ensures(body_fn, (b1, fl_var(self@, start)), (b2, Ok(x)))
                    &&& #[trigger] call_ensures(step_fn, (b2, fl_var(self@, start)), (b3, Ok(next)))
                    &&& #[trigger] call_ensures(cond_fn, (b3, next), (b4, Ok(c)))
                    &&& fl_wire_ok(b4@, c)
                    &&& r.0@ == fl_final(self@, start, b4@, next, c)
                },
            !fl_entry_ok(self@) ==> (r.1 matches Err(e) && e is NullPointer) && (r.0@ == self@
                || r.0@ == self@.appended("loop"@) || r.0@ == fl_pre_phi(self@)),
            r.1 matches Err(e) ==> fl_entry_ok(self@) ==> ((exists|b1: Builder, b2: Builder|
                b1@ == fl_body_entry(self@, start) && #[trigger] call_ensures(
                    body_fn,
                    (b1, fl_var(self@, start)),
                    (b2, Err(e)),
                ) && r.0 == b2) || (exists|b1: Builder, b2: Builder, x: Value, b3: Builder|
                b1@ == fl_body_entry(self@, start) && #[trigger] call_ensures(
                    body_fn,
                    (b1, fl_var(self@, start)),
                    (b2, Ok(x)),
                ) && #[trigger] call_ensures(
                    step_fn,
                    (b2, fl_var(self@, start)),
                    (b3, Err(e)),
                ) && r.0 == b3) || (exists|
                b1: Builder,
                b2: Builder,
                x: Value,
                b3: Builder,
                next: Value,
                b4: Builder,
            |
                b1@ == fl_body_entry(self@, start) && #[trigger] call_ensures(
                    body_fn,
                    (b1, fl_var(self@, start)),
                    (b2, Ok(x)),
                ) && #[trigger] call_ensures(
                    step_fn,
                    (b2, fl_var(self@, start)),
                    (b3, Ok(next)),
                ) && #[trigger] call_ensures(cond_fn, (b3, next), (b4, Err(e))) && r.0 == b4) || (
            exists|
                b1: Builder,
                b2: Builder,
                x: Value,
                b3: Builder,
                next: Value,
                b4: Builder,
                c: Value,
            |
                b1@ == fl_body_entry(self@, start) && #[trigger] call_ensures(
                    body_fn,
                    (b1, fl_var(self@, start)),
                    (b2, Ok(x)),
                ) && #[trigger] call_ensures(
                    step_fn,
                    (b2, fl_var(self@, start)),
                    (b3, Ok(next)),
                ) && #[trigger] call_ensures(cond_fn, (b3, next), (b4, Ok(c))) && !fl_wire_ok(
                    b4@,
                    c,
                ) && e is NullPointer)),
    {
        let ghost b0 = self@;
        let mut b = self;
        let preheader = match b.insertion_block() {
            Ok(x) => x,
            Err(e) => {
                return (b, Err(e));
            },
        };
        let loop_bb = match b.append_block("loop") {
            Ok(x) => x,
            Err(e) => {
                return (b, Err(e));
            },
        };
        match b.br(loop_bb) {
            Ok(_) => (),
            Err(e) => {
                return (b, Err(e));
            },
        };
        b.position_at_end(loop_bb);
        proof {
            assert(b@ =~~= fl_pre_phi(b0));
        }
        let ty = match start.type_of() {
            Ok(t) => t,
            Err(e) => {
                return (b, Err(e));
            },
        };
        let var = match b.phi(ty, "x") {
            Ok(p) => p,
            Err(e) => {
                return (b, Err(e));
            },
        };
        let mut first: Vec<(Value, BasicBlock)> = Vec::new();
        first.push((start, preheader));
        var.add_incoming(&mut b, &first);
        proof {
            assert(spec_pairs(first@) =~= seq![(start, b0.cur_id())]);
            assert(b@ =~~= fl_body_entry(b0, start));
            assert(var == fl_var_phi(b0, start));
        }
        let ghost gb1 = b;
        let (b2r, br_) = body_fn(b, var.to_value());
        let mut b = b2r;
        let body_val = match br_ {
            Ok(v) => v,
            Err(e) => {
                return (b, Err(e));
            },
        };
        proof {
            assert(call_ensures(body_fn, (gb1, fl_var(b0, start)), (b, Ok(body_val))));
            assert(call_requires(step_fn, (b, fl_var(b0, start))));
        }
        let ghost gb2 = b;
        let (b3r, sr) = step_fn(b, var.to_value());
        let mut b = b3r;
        let next = match sr {
            Ok(v) => v,
            Err(e) => {
                return (b, Err(e));
            },
        };
        proof {
            assert(call_ensures(step_fn, (gb2, fl_var(b0, start)), (b, Ok(next))));
            assert(call_requires(cond_fn, (b, next)));
        }
        let ghost gb3 = b;
        let (b4r, cr) = cond_fn(b, next);
        let mut b = b4r;
        let ghost gb4 = b;
        let c = match cr {
            Ok(v) => v,
            Err(e) => {
                return (b, Err(e));
            },
        };
        let loop_end = match b.insertion_block() {
            Ok(x) => x,
            Err(e) => {
                return (b, Err(e));
            },
        };
        let after_bb = match b.append_block("after") {
            Ok(x) => x,
            Err(e) => {
                return (b, Err(e));
            },
        };
        match b.cond_br(c, loop_bb, after_bb) {
            Ok(_) => (),
            Err(e) => {
                return (b, Err(e));
            },
        };
        b.position_at_end(after_bb);
        let mut second: Vec<(Value, BasicBlock)> = Vec::new();
        second.push((next, loop_end));
        var.add_incoming(&mut b, &second);
        proof {
            assert(spec_pairs(second@) =~= seq![(next, gb4@.cur_id())]);
            assert(b@ =~~= fl_final(b0, start, gb4@, next, c));
        }
        (b, Ok(var.to_value()))
    }
}

/// The builder state a function body starts from: a single empty entry
/// block with the cursor on it and value ids starting at 0.
pub open spec fn body_entry(ctx: Handle, fidx: usize) -> BuilderV {
    BuilderV {
        ctx,
        func: Option::Some(fidx),
        blocks: seq![BlockV { name: "entry"@, instrs: Seq::empty() }],
        cur: Option::Some(0usize),
        next_id: 0,
    }
}

/// The builder state after its body has been handed over: no body, no
/// insertion point.
pub open spec fn reset_builder(ctx: Handle) -> BuilderV {
    BuilderV {
        ctx,
        func: Option::None,
        blocks: Seq::empty(),
        cur: Option::None,
        next_id: 0,
    }
}

/// Whether a builder's body can be installed into module `m`: the body
/// belongs to a function that exists in `m`.
pub open spec fn installable(m: ModuleV, b: BuilderV) -> bool {
    match b.func {
        Option::Some(i) => i < m.funcs.len(),
        Option::None => false,
    }
}

/// The module with the builder's body installed: the blocks become the
/// function's body and the builder's id budget its value count.
pub open spec fn install_spec(m: ModuleV, b: BuilderV) -> ModuleV {
    let i = (match b.func {
        Option::Some(i) => i,
        Option::None => 0,
    }) as int;
    ModuleV {
        funcs: m.funcs.update(
            i,
            FuncDefV {
                name: m.funcs[i].name,
                ty: m.funcs[i].ty,
                blocks: b.blocks,
                n_values: b.next_id,
            },
        ),
        ..m
    }
}

/// The module after an installation attempt: unchanged when the body
/// belongs to no function of it.
pub open spec fn install_result(m: ModuleV, b: BuilderV) -> ModuleV {
    if installable(m, b) {
        install_spec(m, b)
    } else {
        m
    }
}

impl Builder {
    /// Begin a fresh body for the given function: the previous body is
    /// discarded and the cursor is placed on a new entry block.
    pub fn begin_function(&mut self, f: &Func) -> (r: Result<BasicBlock, Error>)
        ensures
            final(self)@ == body_entry(old(self)@.ctx, f@.idx),
            r == Ok::<BasicBlock, Error>(BasicBlock { id: 0 }),
    {
        self.func = Some(f.index());
        self.blocks = Vec::new();
        self.cur = None;
        self.next_id = 0;
        let bb = match self.append_block("entry") {
            Ok(x) => x,
            Err(e) => {
                return Err(e);
            },
        };
        self.position_at_end(bb);
        proof {
            assert(final(self)@ =~~= body_entry(old(self)@.ctx, f@.idx));
        }
        Ok(bb)
    }
}

impl Module {
    /// Move the builder's finished body into the function it was begun
    /// for, resetting the builder; fails, changing nothing, when the
    /// builder holds no body for a function of this module.
    pub fn install_body(&mut self, b: &mut Builder) -> (r: Result<(), Error>)
        ensures
            installable(old(self)@, old(b)@) ==> r is Ok && final(self)@ == install_spec(
                old(self)@,
                old(b)@,
            ) && final(b)@ == reset_builder(old(b)@.ctx),
            !installable(old(self)@, old(b)@) ==> (r matches Err(e) && e is NullPointer)
                && final(self)@ == old(self)@ && final(b)@ == old(b)@,
    {
        proof {
            assert(old(self)@.funcs.len() == self.funcs@.len());
        }
        let i: usize = match b.func {
            Some(i) => i,
            None => {
                return Err(Error::NullPointer);
            },
        };
        if !(i < self.funcs.len()) {
            return Err(Error::NullPointer);
        }
        let ctx_copy = b.ctx;
        let mut taken = Builder {
            ctx: ctx_copy,
            func: None,
            blocks: Vec::new(),
            cur: None,
            next_id: 0,
        };
        core::mem::swap(&mut taken, b);
        proof {
            assert(final(b)@ =~~= reset_builder(old(b)@.ctx));
        }
        let fd = &mut self.funcs[i];
        fd.blocks = taken.blocks;
        fd.n_values = taken.next_id;
        proof {
            assert(final(self)@.funcs =~~= install_spec(old(self)@, old(b)@).funcs);
            assert(final(self)@ =~~= install_spec(old(self)@, old(b)@));
        }
        Ok(())
    }

    /// Declare a function with a body: the function is defined, the
    /// closure populates its body starting from a fresh entry block, the
    /// body is installed whether or not the closure succeeded — a failed
    /// build leaves the module partially built — and the finished
    /// function is verified.
    pub fn declare_function<F>(&mut self, b: Builder, name: &str, ft: FuncType, def: F) -> (r: (
        Builder,
        Result<Func, Error>,
    )) where F: FnOnce(Builder, Func) -> (Builder, Result<Value, Error>)
        requires
            forall|b1: Builder, fc: Func|
                b1@ == body_entry(b@.ctx, old(self)@.funcs.len() as usize) && fc@ == (
                FuncV { idx: old(self)@.funcs.len() as usize, ty: ft@ }) ==> #[trigger] call_requires(
                    def,
                    (b1, fc),
                ),
        ensures
            ({
                let mid = ModuleV {
                    funcs: old(self)@.funcs.push(
                        FuncDefV {
                            name: name@,
                            ty: ft@,
                            blocks: Seq::empty(),
                            n_values: 0,
                        },
                    ),
                    ..old(self)@
                };
                let fidx = old(self)@.funcs.len() as usize;
                &&& (r.1 matches Ok(f) ==> f@ == (FuncV { idx: fidx, ty: ft@ })
                    && exists|b1: Builder, fc: Func, b2: Builder, v: Value|
                    {
                        &&& b1@ == body_entry(b@.ctx, fidx)
                        &&& fc@ == (FuncV { idx: fidx, ty: ft@ })
                        &&& #[trigger] call_ensures(def, (b1, fc), (b2, Ok(v)))
                        &&& installable(mid, b2@)
                        &&& final(self)@ == install_spec(mid, b2@)
                        &&& func_wf(final(self)@, fidx)
                        &&& r.0@ == reset_builder(b2@.ctx)
                    })
                &&& (r.1 matches Err(e) ==> exists|
                    b1: Builder,
                    fc: Func,
                    b2: Builder,
                    rv: Result<Value, Error>,
                |
                    {
                        &&& b1@ == body_entry(b@.ctx, fidx)
                        &&& fc@ == (FuncV { idx: fidx, ty: ft@ })
                        &&& #[trigger] call_ensures(def, (b1, fc), (b2, rv))
                        &&& final(self)@ == install_result(mid, b2@)
                        &&& (rv matches Err(e2) ==> e == e2)
                        &&& (rv is Ok ==> ((!installable(mid, b2@) && e is NullPointer) || (
                        installable(mid, b2@) && !func_wf(final(self)@, fidx)
                            && e is InvalidFunction)))
                    })
            }),
    {
        let mut b = b;
        let f = match self.define_function(name, ft) {
            Ok(f) => f,
            Err(e) => {
                return (b, Err(e));
            },
        };
        let ghost mid = self@;
        match b.begin_function(&f) {
            Ok(_) => (),
            Err(e) => {
                return (b, Err(e));
            },
        };
        let ghost gb1 = b;
        let fc = f.clone();
        let ghost gfc = fc;
        let (b2r, res) = def(b, fc);
        let mut b = b2r;
        let ghost gb2 = b;
        let inst = self.install_body(&mut b);
        match res {
            Ok(v) => match inst {
                Ok(_) => match f.verify(self) {
                    Ok(_) => (b, Ok(f)),
                    Err(e) => (b, Err(e)),
                },
                Err(e) => (b, Err(e)),
            },
            Err(e) => (b, Err(e)),
        }
    }
}


impl Module {
    /// The number of basic blocks of function `fidx`.
    pub(crate) fn n_blocks(&self, fidx: usize) -> (r: usize)
        requires
            fidx < self@.funcs.len(),
        ensures
            r == self@.funcs[fidx as int].blocks.len(),
    {
        self.funcs[fidx].blocks.len()
    }

    /// The number of instructions of block `b` of function `fidx`.
    pub(crate) fn n_instrs(&self, fidx: usize, b: usize) -> (r: usize)
        requires
            fidx < self@.funcs.len(),
            b < self@.funcs[fidx as int].blocks.len(),
        ensures
            r == self@.funcs[fidx as int].blocks[b as int].instrs.len(),
    {
        self.funcs[fidx].blocks[b].instrs.len()
    }

    /// The value id budget of function `fidx`.
    pub(crate) fn n_values_of(&self, fidx: usize) -> (r: usize)
        requires
            fidx < self@.funcs.len(),
        ensures
            r == self@.funcs[fidx as int].n_values,
    {
        self.funcs[fidx].n_values
    }

    /// The parameter count of function `fidx`.
    pub(crate) fn n_params_of(&self, fidx: usize) -> (r: usize)
        requires
            fidx < self@.funcs.len(),
        ensures
            r == self@.funcs[fidx as int].ty.params.len(),
    {
        self.funcs[fidx].ty.params.len()
    }

    /// The instruction at position `pc` of block `b` of function `fidx`.
    pub(crate) fn instr_at(&self, fidx: usize, b: usize, pc: usize) -> (r: &Inst)
        requires
            fidx < self@.funcs.len(),
            b < self@.funcs[fidx as int].blocks.len(),
            pc < self@.funcs[fidx as int].blocks[b as int].instrs.len(),
        ensures
            r@ == self@.funcs[fidx as int].blocks[b as int].instrs[pc as int],
    {
        &self.funcs[fidx].blocks[b].instrs[pc]
    }
}

impl Module {
    /// The type of function `fidx`.
    pub(crate) fn func_ty_at(&self, fidx: usize) -> (r: &FuncType)
        requires
            fidx < self@.funcs.len(),
        ensures
            r@ == self@.funcs[fidx as int].ty,
    {
        &self.funcs[fidx].ty
    }
}

impl Module {
    /// The name of the function at position `fidx`.
    pub(crate) fn function_name_at(&self, fidx: usize) -> (r: Result<String, Error>)
        requires
            fidx < self@.funcs.len(),
        ensures
            r matches Ok(s) && s@ == self@.funcs[fidx as int].name,
    {
        Ok(self.funcs[fidx].name.clone())
    }
}

/// The two-state transfer machine an acquisition steps: a free module
/// becomes owned and the attempt succeeds; an owned module is left as it
/// is and the attempt fails.
pub open spec fn spec_acquire(m: ModuleV) -> (ModuleV, bool) {
    if m.state is Free {
        (ModuleV { state: OwnState::Owned, ..m }, true)
    } else {
        (m, false)
    }
}

/// Ownership of a module is acquired exactly once: of two consecutive
/// acquisition attempts on a free module, the first succeeds and hands
/// over an owned module, the second fails and leaves that module — still
/// fully functional, with all of its contents intact — unchanged.
pub proof fn lemma_module_single_ownership(m: ModuleV)
    requires
        m.state is Free,
    ensures
        spec_acquire(m).1,
        !spec_acquire(spec_acquire(m).0).1,
        spec_acquire(spec_acquire(m).0).0 == spec_acquire(m).0,
        spec_acquire(m).0 == (ModuleV { state: OwnState::Owned, ..m }),
{
}

/// A fresh builder for the given scope tag, with no body and no
/// insertion point.
pub(crate) fn builder_for(ctx: Handle) -> (r: Builder)
    ensures
        r@ == reset_builder(ctx),
{
    let b = Builder { ctx, func: None, blocks: Vec::new(), cur: None, next_id: 0 };
    proof {
        assert(b@ =~~= reset_builder(ctx));
    }
    b
}

/// A function type assembled from parsed parts.
pub(crate) fn functype_raw(ret: Type, params: Vec<Type>) -> (r: FuncType)
    ensures
        r@ == (FuncTypeV { ret, params: params@ }),
{
    let r = FuncType { ret, params };
    proof {
        assert(r@ =~~= (FuncTypeV { ret, params: r.params@ }));
    }
    r
}

/// A function definition assembled from parsed parts.
pub(crate) fn funcdef_raw(name: String, ty: FuncType, blocks: Vec<Block>, n_values: usize) -> (r:
    FuncDef)
    ensures
        r@ == (FuncDefV {
            name: name@,
            ty: ty@,
            blocks: blocks@.map_values(|b: Block| b@),
            n_values,
        }),
{
    let ghost nv = name@;
    let ghost tv = ty@;
    let ghost bv = blocks@.map_values(|b: Block| b@);
    let r = FuncDef { name, ty, blocks, n_values };
    proof {
        assert(r@ =~~= (FuncDefV { name: nv, ty: tv, blocks: bv, n_values }));
    }
    r
}

/// A free module assembled from parsed parts, inside the given context.
pub(crate) fn module_raw(
    handle: Handle,
    ctx: Handle,
    name: String,
    target: String,
    data_layout: String,
    funcs: Vec<FuncDef>,
) -> (r: Module)
    ensures
        r@ == (ModuleV {
            handle,
            ctx,
            name: name@,
            target: target@,
            data_layout: data_layout@,
            funcs: funcs@.map_values(|f: FuncDef| f@),
            state: OwnState::Free,
        }),
{
    let ghost nv = name@;
    let ghost tv = target@;
    let ghost dv = data_layout@;
    let ghost fv = funcs@.map_values(|f: FuncDef| f@);
    let r = Module { handle, ctx, name, target, data_layout, funcs, state: OwnState::Free };
    proof {
        assert(r@ =~~= (ModuleV {
            handle,
            ctx,
            name: nv,
            target: tv,
            data_layout: dv,
            funcs: fv,
            state: OwnState::Free,
        }));
    }
    r
}

impl Module {
    /// The name of the function at position `fidx`, by reference.
    pub(crate) fn func_name_ref(&self, fidx: usize) -> (r: &String)
        requires
            fidx < self@.funcs.len(),
        ensures
            r@ == self@.funcs[fidx as int].name,
    {
        &self.funcs[fidx].name
    }

    /// The name of block `b` of function `fidx`, by reference.
    pub(crate) fn block_name_ref(&self, fidx: usize, b: usize) -> (r: &String)
        requires
            fidx < self@.funcs.len(),
            b < self@.funcs[fidx as int].blocks.len(),
        ensures
            r@ == self@.funcs[fidx as int].blocks[b as int].name,
    {
        &self.funcs[fidx].blocks[b].name
    }
}

impl Module {
    /// The module identifier, by reference.
    pub(crate) fn name_ref(&self) -> (r: &String)
        ensures
            r@ == self@.name,
    {
        &self.name
    }

    /// The target string, by reference.
    pub(crate) fn target_ref(&self) -> (r: &String)
        ensures
            r@ == self@.target,
    {
        &self.target
    }

    /// The data layout string, by reference.
    pub(crate) fn data_layout_ref(&self) -> (r: &String)
        ensures
            r@ == self@.data_layout,
    {
        &self.data_layout
    }
}

} // verus!
