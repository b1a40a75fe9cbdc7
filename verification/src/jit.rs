use crate::context::Context;
use crate::context::ContextV;
use crate::error::Error;
use crate::execution_engine::ExecutionEngine;
use crate::execution_engine::ExecutionEngineV;
use crate::ir::Value;
use crate::module::body_entry;
use crate::module::builder_for;
use crate::module::func_wf;
use crate::module::install_result;
use crate::module::install_spec;
use crate::module::installable;
use crate::module::reset_builder;
use crate::module::Builder;
use crate::module::BuilderV;
use crate::module::Func;
use crate::module::FuncDefV;
use crate::module::FuncType;
use crate::module::FuncV;
use crate::module::Module;
use crate::module::ModuleV;
use crate::module::OwnState;
use vstd::prelude::*;

verus! {

/// A bundle of a context, a builder, and an execution engine holding one
/// module: everything needed to build and interpret functions.
pub struct Jit {
    engine: ExecutionEngine,
    build: Builder,
    context: Context,
}

/// Mathematical model of a [`Jit`].
#[verifier::ext_equal]
pub struct JitV {
    /// The engine, holding the owned module.
    pub engine: ExecutionEngineV,
    /// The builder.
    pub build: BuilderV,
    /// The owning context.
    pub context: ContextV,
}

impl View for Jit {
    type V = JitV;

    closed spec fn view(&self) -> JitV {
        JitV { engine: self.engine@, build: self.build@, context: self.context@ }
    }
}

impl Jit {
    /// Create a fresh context, an empty module of the given name inside
    /// it, a builder, and a just-in-time engine owning the module at the
    /// given optimization level (0 when none is given); in the model
    /// every constituent construction succeeds.
    pub fn new(name: &str, opt: Option<usize>) -> (r: Result<Jit, Error>)
        ensures
            r is Ok,
            r matches Ok(j) ==> j@.context.owns && j@.engine.module.name == name@
                && j@.engine.module.state is Owned && j@.engine.module.funcs == Seq::<
                FuncDefV,
            >::empty() && j@.engine.module.target == Seq::<char>::empty()
                && j@.engine.module.data_layout == Seq::<char>::empty()
                && j@.engine.module.ctx == j@.context.handle && j@.engine.opt == Option::Some(
                match opt {
                    Option::Some(level) => level,
                    Option::None => 0,
                },
            ) && j@.build == reset_builder(j@.build.ctx) && j@.build.ctx == j@.context.handle,
    {
        let context = Context::new()?;
        let module = Module::new(&context, name)?;
        let build = Builder::new(&context)?;
        let engine = match opt {
            Some(level) => ExecutionEngine::new_jit(module, level)?,
            None => ExecutionEngine::new_jit(module, 0)?,
        };
        Ok(Jit { context, build, engine })
    }

    /// Dissolve the bundle into its parts.
    pub fn into_inner(self) -> (r: (Context, Builder, ExecutionEngine))
        ensures
            r.0@ == self@.context,
            r.1@ == self@.build,
            r.2@ == self@.engine,
    {
        (self.context, self.build, self.engine)
    }

    /// The execution engine.
    pub fn engine(&self) -> (r: &ExecutionEngine)
        ensures
            r@ == self@.engine,
    {
        &self.engine
    }

    /// Mutable access to the execution engine.
    pub fn engine_mut(&mut self) -> (r: &mut ExecutionEngine)
        ensures
            r@ == old(self)@.engine,
            final(self)@ == (JitV { engine: final(r)@, ..old(self)@ }),
    {
        &mut self.engine
    }

    /// The builder.
    pub fn build(&self) -> (r: &Builder)
        ensures
            r@ == self@.build,
    {
        &self.build
    }

    /// Mutable access to the builder.
    pub fn build_mut(&mut self) -> (r: &mut Builder)
        ensures
            r@ == old(self)@.build,
            final(self)@ == (JitV { build: final(r)@, ..old(self)@ }),
    {
        &mut self.build
    }

    /// The context.
    pub fn context(&self) -> (r: &Context)
        ensures
            r@ == self@.context,
    {
        &self.context
    }

    /// Mutable access to the context.
    pub fn context_mut(&mut self) -> (r: &mut Context)
        ensures
            r@ == old(self)@.context,
            final(self)@ == (JitV { context: final(r)@, ..old(self)@ }),
    {
        &mut self.context
    }

    /// The module held by the engine.
    pub fn module(&self) -> (r: &Module)
        ensures
            r@ == self@.engine.module,
    {
        self.engine.module()
    }

    /// Mutable access to the module held by the engine.
    pub fn module_mut(&mut self) -> (r: &mut Module)
        ensures
            r@ == old(self)@.engine.module,
            final(self)@ == (JitV {
                engine: ExecutionEngineV { module: final(r)@, ..old(self)@.engine },
                ..old(self)@
            }),
    {
        self.engine.module_mut()
    }

    /// Define a new function without a body in the held module.
    pub fn define_function(&mut self, name: &str, t: FuncType) -> (r: Result<Func, Error>)
        ensures
            r matches Ok(f) && f@ == (FuncV {
                idx: old(self)@.engine.module.funcs.len() as usize,
                ty: t@,
            }),
            final(self)@ == (JitV {
                engine: ExecutionEngineV {
                    module: ModuleV {
                        funcs: old(self)@.engine.module.funcs.push(
                            FuncDefV {
                                name: name@,
                                ty: t@,
                                blocks: Seq::empty(),
                                n_values: 0,
                            },
                        ),
                        ..old(self)@.engine.module
                    },
                    ..old(self)@.engine
                },
                ..old(self)@
            }),
    {
        let m = self.engine.module_mut();
        m.define_function(name, t)
    }

    /// Declare a function with a body in the held module, populating it
    /// with the bundled builder exactly as the module's own declaration
    /// does: the closure builds from a fresh entry block, the body is
    /// installed whether or not the closure succeeded, and the finished
    /// function is verified.
    pub fn declare_function<F>(&mut self, name: &str, ft: FuncType, def: F) -> (r: Result<
        Func,
        Error,
    >) where F: FnOnce(Builder, Func) -> (Builder, Result<Value, Error>)
        requires
            forall|b1: Builder, fc: Func|
                b1@ == body_entry(
                    old(self)@.build.ctx,
                    old(self)@.engine.module.funcs.len() as usize,
                ) && fc@ == (FuncV {
                    idx: old(self)@.engine.module.funcs.len() as usize,
                    ty: ft@,
                }) ==> #[trigger] call_requires(def, (b1, fc)),
        ensures
            ({
                let mid = ModuleV {
                    funcs: old(self)@.engine.module.funcs.push(
                        FuncDefV { name: name@, ty: ft@, blocks: Seq::empty(), n_values: 0 },
                    ),
                    ..old(self)@.engine.module
                };
                let fidx = old(self)@.engine.module.funcs.len() as usize;
                &&& final(self)@.context == old(self)@.context
                &&& final(self)@.engine.handle == old(self)@.engine.handle
                &&& final(self)@.engine.opt == old(self)@.engine.opt
                &&& (r matches Ok(f) ==> f@ == (FuncV { idx: fidx, ty: ft@ }) && exists|
                    b1: Builder,
                    fc: Func,
                    b2: Builder,
                    v: Value,
                |
                    {
                        &&& b1@ == body_entry(old(self)@.build.ctx, fidx)
                        &&& fc@ == (FuncV { idx: fidx, ty: ft@ })
                        &&& #[trigger] call_ensures(def, (b1, fc), (b2, Ok(v)))
                        &&& installable(mid, b2@)
                        &&& final(self)@.engine.module == install_spec(mid, b2@)
                        &&& func_wf(final(self)@.engine.module, fidx)
                        &&& final(self)@.build == reset_builder(b2@.ctx)
                    })
                &&& (r matches Err(e) ==> exists|
                    b1: Builder,
                    fc: Func,
                    b2: Builder,
                    rv: Result<Value, Error>,
                |
                    {
                        &&& b1@ == body_entry(old(self)@.build.ctx, fidx)
                        &&& fc@ == (FuncV { idx: fidx, ty: ft@ })
                        &&& #[trigger] call_ensures(def, (b1, fc), (b2, rv))
                        &&& final(self)@.engine.module == install_result(mid, b2@)
                        &&& (rv matches Err(e2) ==> e == e2)
                        &&& (rv is Ok ==> ((!installable(mid, b2@) && e is NullPointer) || (
                        installable(mid, b2@) && !func_wf(final(self)@.engine.module, fidx)
                            && e is InvalidFunction)))
                    })
            }),
    {
        let ctxh = self.build.context().handle();
        let mut b = builder_for(ctxh);
        core::mem::swap(&mut b, &mut self.build);
        let m = self.engine.module_mut();
        let (b2, r) = m.declare_function(b, name, ft, def);
        self.build = b2;
        r
    }
}

} // verus!
