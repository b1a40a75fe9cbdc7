use llama::Builder;
use llama::Codegen;
use llama::Const;
use llama::Context;
use llama::Error;
use llama::ExecutionEngine;
use llama::Fcmp;
use llama::Func;
use llama::FuncType;
use llama::Icmp;
use llama::Jit;
use llama::Module;
use llama::Type;
use llama::Value;

#[test]
fn codegen() -> Result<(), Error> {
    let jit = {
        let mut jit = Jit::new("test_codegen", Some(2))?;
        let i32t = Type::i32(jit.context())?;
        let ft = FuncType::new(i32t, vec![i32t, i32t])?;
        jit.declare_function("testing", ft, |mut b: Builder, f: Func| {
            let params = f.params();
            let a = match b.add(params[0], params[1], "a") {
                Ok(v) => v,
                Err(e) => return (b, Err(e)),
            };
            let r = match b.ret(a) {
                Ok(v) => v,
                Err(e) => return (b, Err(e)),
            };
            (b, Ok(r))
        })?;
        jit
    };

    jit.module().verify()?;

    let x = jit.engine().run_function("testing", &vec![1, 2], 100)?;
    assert_eq!(x, 3);

    Codegen::new(jit.module(), &vec![String::from("testing")])?;

    Ok(())
}

#[test]
fn if_then_else() -> Result<(), Error> {
    let mut jit = Jit::new("test_if_then_else", None)?;

    let f32t = Type::float(jit.context())?;
    let ft = FuncType::new(f32t, vec![f32t])?;

    let ten = Const::real_bits(f32t, 10.0f32.to_bits() as u64)?.value();
    let one = Const::real_bits(f32t, 1.0f32.to_bits() as u64)?.value();
    let two = Const::real_bits(f32t, 2.0f32.to_bits() as u64)?.value();

    jit.declare_function("testing", ft, move |mut b: Builder, f: Func| {
        let params = f.params();
        let cond = match b.fcmp(Fcmp::Ult, params[0], ten, "cond") {
            Ok(v) => v,
            Err(e) => return (b, Err(e)),
        };
        let (mut b, phi_r) = b.if_then_else(
            cond,
            move |b2: Builder| (b2, Ok(one)),
            move |b2: Builder| (b2, Ok(two)),
        );
        let phi = match phi_r {
            Ok(p) => p,
            Err(e) => return (b, Err(e)),
        };
        let r = match b.ret(phi.value) {
            Ok(v) => v,
            Err(e) => return (b, Err(e)),
        };
        (b, Ok(r))
    })?;

    let x = jit.engine().run_function("testing", &vec![11.0f32.to_bits() as u64], 100)?;
    let y = jit.engine().run_function("testing", &vec![9.0f32.to_bits() as u64], 100)?;

    assert_eq!(x, 2.0f32.to_bits() as u64);
    assert_eq!(y, 1.0f32.to_bits() as u64);
    assert_eq!(f32::from_bits(x as u32), 2.0);
    assert_eq!(f32::from_bits(y as u32), 1.0);

    Codegen::new(jit.module(), &vec![String::from("testing")])?;

    Ok(())
}

#[test]
fn for_loop() -> Result<(), Error> {
    let mut jit = Jit::new("test_for_loop", None)?;

    let i64t = Type::integer(jit.context(), 64)?;
    let ft = FuncType::new(i64t, vec![i64t])?;

    let zero = Const::int_sext(i64t, 0)?.value();
    let one = Const::int_sext(i64t, 1)?.value();

    jit.declare_function("testing", ft, move |b: Builder, f: Func| {
        let params = f.params();
        let n = params[0];
        let (mut b, loop_r) = b.for_loop(
            zero,
            move |mut bb: Builder, x: Value| {
                let r = bb.icmp(Icmp::Slt, x, n, "cond");
                (bb, r)
            },
            move |mut bb: Builder, x: Value| {
                let r = bb.add(x, one, "add");
                (bb, r)
            },
            move |bb: Builder, x: Value| (bb, Ok(x)),
        );
        let v = match loop_r {
            Ok(v) => v,
            Err(e) => return (b, Err(e)),
        };
        let r = match b.ret(v) {
            Ok(v) => v,
            Err(e) => return (b, Err(e)),
        };
        (b, Ok(r))
    })?;

    let x = jit.engine().run_function("testing", &vec![10], 10_000)?;
    assert_eq!(x, 9);

    let x = jit.engine().run_function("testing", &vec![100], 10_000)?;
    assert_eq!(x, 99);

    let (_ctx, _builder, engine) = jit.into_inner();
    Codegen::new(&engine.into_module()?, &vec![String::from("testing")])?;

    Ok(())
}

#[test]
fn nested_control_flow_wires_exit_block() -> Result<(), Error> {
    let ctx = Context::new()?;
    let mut m = Module::new(&ctx, "nested")?;
    let i64t = Type::i64(&ctx)?;
    let ft = FuncType::new(i64t, vec![i64t])?;
    let f = m.define_function("f", ft)?;

    let mut b = Builder::new(&ctx)?;
    b.begin_function(&f)?;

    let n = f.param(0)?;
    let ten = Const::int_sext(i64t, 10)?.value();
    let zero = Const::int_sext(i64t, 0)?.value();
    let one = Const::int_sext(i64t, 1)?.value();
    let ninety_nine = Const::int_sext(i64t, 99)?.value();

    let cond = b.icmp(Icmp::Slt, n, ten, "cond")?;

    let (mut b, phi_r) = b.if_then_else(
        cond,
        move |b2: Builder| {
            let (b3, loop_r) = b2.for_loop(
                zero,
                move |mut bb: Builder, x: Value| {
                    let r = bb.icmp(Icmp::Slt, x, n, "c");
                    (bb, r)
                },
                move |mut bb: Builder, x: Value| {
                    let r = bb.add(x, one, "s");
                    (bb, r)
                },
                move |bb: Builder, x: Value| (bb, Ok(x)),
            );
            (b3, loop_r)
        },
        move |b2: Builder| (b2, Ok(ninety_nine)),
    );
    let phi = phi_r?;

    // Blocks: 0 entry, 1 then, 2 loop, 3 after, 4 else, 5 merge.  The
    // then-arm's incoming edge must come from the nested loop's exit
    // block (3), not from the arm's entry block (1).
    assert_eq!(phi.count_incoming(&b), 2);
    let then_edge = phi.incoming_block(&b, 0)?;
    assert_eq!(then_edge.id(), 3);
    assert_ne!(then_edge.id(), 1);
    assert_eq!(phi.incoming_block(&b, 1)?.id(), 4);
    assert_eq!(b.insertion_block()?.id(), 5);

    b.ret(phi.value)?;
    m.install_body(&mut b)?;
    m.verify()?;
    f.verify(&m)?;

    let e = ExecutionEngine::new(m)?;
    assert_eq!(e.run_function("f", &vec![5], 1_000)?, 4);
    assert_eq!(e.run_function("f", &vec![20], 1_000)?, 99);

    Ok(())
}

#[test]
fn if_then_else_propagates_closure_failure() -> Result<(), Error> {
    let ctx = Context::new()?;
    let mut m = Module::new(&ctx, "bad")?;
    let i64t = Type::i64(&ctx)?;
    let ft = FuncType::new(i64t, vec![])?;
    let f = m.define_function("f", ft)?;

    let mut b = Builder::new(&ctx)?;
    b.begin_function(&f)?;

    let one = Const::integer(i64t, 1)?.value();
    let flag = Const::integer(Type::i1(&ctx)?, 1)?.value();

    let (_b, phi_r) = b.if_then_else(
        flag,
        move |b2: Builder| (b2, Err(Error::InvalidConst)),
        move |b2: Builder| (b2, Ok(one)),
    );
    assert!(matches!(phi_r, Err(Error::InvalidConst)));

    Ok(())
}

#[test]
fn builder_without_cursor_rejects_instructions() -> Result<(), Error> {
    let ctx = Context::new()?;
    let mut b = Builder::new(&ctx)?;
    let i64t = Type::i64(&ctx)?;
    let one = Const::integer(i64t, 1)?.value();

    assert!(matches!(b.add(one, one, "a"), Err(Error::NullPointer)));
    assert!(matches!(b.insertion_block(), Err(Error::NullPointer)));

    let bb = b.append_block("start")?;
    b.position_at_end(bb);
    assert!(b.add(one, one, "a").is_ok());
    assert_eq!(b.insertion_block()?.id(), bb.id());

    b.clear_insertion_position();
    assert!(matches!(b.ret_void(), Err(Error::NullPointer)));

    // mismatched operand types are refused as a null foreign result
    let i32t = Type::i32(&ctx)?;
    let w = Const::integer(i32t, 1)?.value();
    b.position_at_end(bb);
    assert!(matches!(b.add(one, w, "a"), Err(Error::NullPointer)));

    Ok(())
}
