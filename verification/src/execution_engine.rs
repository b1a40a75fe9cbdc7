use crate::error::Error;
use crate::error::Message;
use crate::eval::eval_function;
use crate::eval::spec_eval_func;
use crate::eval::EvalStatus;
use crate::handle::wrap_inner;
use crate::handle::Handle;
use crate::module::Module;
use crate::module::ModuleV;
use crate::module::OwnState;
use vstd::prelude::*;

verus! {

/// Scope tag given to execution engines.
pub const ENGINE_ADDR: usize = 4;

/// An execution engine: the holder of an acquired module, able to
/// interpret its functions.  Creating an engine acquires ownership of the
/// module; giving the module back releases it.
pub struct ExecutionEngine {
    handle: Handle,
    module: Module,
    opt: Option<usize>,
}

/// Mathematical model of an [`ExecutionEngine`].
#[verifier::ext_equal]
pub struct ExecutionEngineV {
    /// The engine's scope tag.
    pub handle: Handle,
    /// The owned module.
    pub module: ModuleV,
    /// The optimization level, absent for a plain interpreter.
    pub opt: Option<usize>,
}

impl View for ExecutionEngine {
    type V = ExecutionEngineV;

    closed spec fn view(&self) -> ExecutionEngineV {
        ExecutionEngineV { handle: self.handle, module: self.module@, opt: self.opt }
    }
}

impl ExecutionEngine {
    /// Create an interpreting engine for the module, acquiring its
    /// ownership: exactly one holder can succeed, and an already owned
    /// module is refused with a recoverable error.
    pub fn new(module: Module) -> (r: Result<ExecutionEngine, Error>)
        ensures
            module@.state is Free <==> r is Ok,
            r matches Ok(e) ==> e@.module == (ModuleV { state: OwnState::Owned, ..module@ })
                && e@.opt is None,
            r matches Err(e) ==> e is ModuleIsAlreadyOwned,
    {
        let mut module = module;
        match module.acquire() {
            Ok(_) => (),
            Err(e) => {
                return Err(e);
            },
        };
        let handle = wrap_inner(ENGINE_ADDR)?;
        Ok(ExecutionEngine { handle, module, opt: None })
    }

    /// Create a just-in-time engine with the given optimization level,
    /// acquiring ownership of the module exactly as [`Self::new`] does.
    pub fn new_jit(module: Module, opt: usize) -> (r: Result<ExecutionEngine, Error>)
        ensures
            module@.state is Free <==> r is Ok,
            r matches Ok(e) ==> e@.module == (ModuleV { state: OwnState::Owned, ..module@ })
                && e@.opt == Option::Some(opt),
            r matches Err(e) ==> e is ModuleIsAlreadyOwned,
    {
        let mut module = module;
        match module.acquire() {
            Ok(_) => (),
            Err(e) => {
                return Err(e);
            },
        };
        let handle = wrap_inner(ENGINE_ADDR)?;
        Ok(ExecutionEngine { handle, module, opt: Some(opt) })
    }

    /// A view of the underlying module.
    pub fn module(&self) -> (r: &Module)
        ensures
            r@ == self@.module,
    {
        &self.module
    }

    /// Mutable access to the underlying module.
    pub fn module_mut(&mut self) -> (r: &mut Module)
        ensures
            r@ == old(self)@.module,
            final(self)@ == (ExecutionEngineV { module: final(r)@, ..old(self)@ }),
    {
        &mut self.module
    }

    /// Dissolve the engine, giving the module back with its ownership
    /// released.
    pub fn into_module(self) -> (r: Result<Module, Error>)
        ensures
            r matches Ok(m) && m@ == (ModuleV { state: OwnState::Free, ..self@.module }),
    {
        let mut module = self.module;
        module.release();
        Ok(module)
    }

    /// Interpret the named function of the owned module on the given
    /// argument bit patterns, spending at most `fuel` block transitions
    /// and calls.
    pub fn run_function(&self, name: &str, args: &Vec<u64>, fuel: u64) -> (r: Result<u64, Error>)
        ensures
            forall|i: usize|
                i < self@.module.funcs.len() && (#[trigger] self@.module.funcs[i as int].name)
                    == name@ && (forall|j: int|
                    0 <= j < i ==> self@.module.funcs[j].name != name@) ==> match spec_eval_func(
                    self@.module,
                    i,
                    args@,
                    fuel as nat,
                ) {
                    EvalStatus::Done(x) => r == Ok::<u64, Error>(x),
                    EvalStatus::Stuck => r matches Err(e) && e is Message,
                    EvalStatus::Spin => r matches Err(e) && e is Message,
                },
            r matches Ok(x) ==> exists|i: usize|
                i < self@.module.funcs.len() && (#[trigger] self@.module.funcs[i as int].name)
                    == name@ && (forall|j: int|
                    0 <= j < i ==> self@.module.funcs[j].name != name@) && spec_eval_func(
                    self@.module,
                    i,
                    args@,
                    fuel as nat,
                ) == EvalStatus::Done(x),
            (forall|i: int|
                0 <= i < self@.module.funcs.len() ==> (#[trigger] self@.module.funcs[i].name)
                    != name@) <==> (r matches Err(e) && e is NullPointer),
            r matches Err(e) ==> e is NullPointer || e is Message,
    {
        let f = match self.module.named_function(name) {
            Ok(f) => f,
            Err(e) => {
                return Err(e);
            },
        };
        proof {
            assert(self@.module.funcs[f@.idx as int].name == name@);
        }
        match eval_function(&self.module, &f, args, fuel) {
            EvalStatus::Done(x) => {
                proof {
                    let i0 = f@.idx;
                    assert(i0 < self@.module.funcs.len() && self@.module.funcs[i0 as int].name
                        == name@ && (forall|j: int|
                        0 <= j < i0 ==> self@.module.funcs[j].name != name@) && spec_eval_func(
                        self@.module,
                        i0,
                        args@,
                        fuel as nat,
                    ) == EvalStatus::Done(x));
                }
                Ok(x)
            },
            EvalStatus::Stuck => Err(
                Error::Message(Message::from_raw(String::from_str("interpreter stuck"))),
            ),
            EvalStatus::Spin => Err(
                Error::Message(Message::from_raw(String::from_str("interpreter fuel exhausted"))),
            ),
        }
    }
}

} // verus!
