use llama::wrap_inner;
use llama::Builder;
use llama::Const;
use llama::Context;
use llama::Error;
use llama::ExecutionEngine;
use llama::FuncType;
use llama::Module;
use llama::OwnState;
use llama::Type;

#[test]
fn null_foreign_addresses_are_refused() {
    // the single chokepoint translates every null foreign address
    assert!(matches!(wrap_inner(0), Err(Error::NullPointer)));

    let h = wrap_inner(5).expect("non-null address wraps");
    assert_eq!(h.addr(), 5);
}

#[test]
fn module_ownership_is_acquired_exactly_once() -> Result<(), Error> {
    let ctx = Context::new()?;
    let mut m = Module::new(&ctx, "owned")?;
    assert!(matches!(m.ownership(), OwnState::Free));

    // the first acquisition succeeds, the second fails recoverably
    assert!(m.acquire().is_ok());
    assert!(matches!(m.ownership(), OwnState::Owned));
    assert!(matches!(m.acquire(), Err(Error::ModuleIsAlreadyOwned)));

    // the holder remains fully functional after the failed attempt
    assert!(matches!(m.ownership(), OwnState::Owned));
    let i64t = Type::i64(&ctx)?;
    let ft = FuncType::new(i64t, vec![])?;
    m.define_function("still_usable", ft)?;
    assert_eq!(m.function_count(), 1);

    // giving ownership back frees the module for the next holder
    m.release();
    assert!(matches!(m.ownership(), OwnState::Free));
    assert!(m.acquire().is_ok());

    Ok(())
}

#[test]
fn engine_takes_and_returns_module_ownership() -> Result<(), Error> {
    let ctx = Context::new()?;
    let m = Module::new(&ctx, "handed_over")?;

    let engine = ExecutionEngine::new(m)?;
    let m = engine.into_module()?;
    assert!(matches!(m.ownership(), OwnState::Free));

    // a module whose ownership is already taken is refused by an engine
    let mut m = m;
    m.acquire()?;
    assert!(matches!(
        ExecutionEngine::new_jit(m, 2),
        Err(Error::ModuleIsAlreadyOwned)
    ));

    Ok(())
}

#[test]
fn context_aliases_never_own_the_arena() -> Result<(), Error> {
    let owning = Context::new()?;
    assert!(owning.owns_underlying());

    let alias = owning.clone();
    assert!(!alias.owns_underlying());
    assert_eq!(alias.handle().addr(), owning.handle().addr());

    let global = Context::global()?;
    assert!(!global.owns_underlying());

    // releasing reports destruction only for the owning value
    assert!(!alias.release());
    assert!(!global.release());
    assert!(owning.release());

    Ok(())
}

#[test]
fn module_context_is_a_non_owning_alias() -> Result<(), Error> {
    let ctx = Context::new()?;
    let m = Module::new(&ctx, "scoped")?;
    let alias = m.context()?;
    assert!(!alias.owns_underlying());
    assert_eq!(alias.handle().addr(), ctx.handle().addr());

    let b = Builder::new(&ctx)?;
    let alias = b.context();
    assert!(!alias.owns_underlying());

    Ok(())
}

#[test]
fn run_function_reports_missing_names_and_fuel() -> Result<(), Error> {
    let ctx = Context::new()?;
    let mut m = Module::new(&ctx, "runner")?;
    let i64t = Type::i64(&ctx)?;

    // an endless loop: entry branches to a block that branches to itself
    let f = m.define_function("spin", FuncType::new(i64t, vec![])?)?;
    let mut b = Builder::new(&ctx)?;
    b.begin_function(&f)?;
    let lp = b.append_block("lp")?;
    b.br(lp)?;
    b.position_at_end(lp);
    b.br(lp)?;
    m.install_body(&mut b)?;
    m.verify()?;

    let e = ExecutionEngine::new(m)?;
    assert!(matches!(e.run_function("missing", &vec![], 10), Err(Error::NullPointer)));
    assert!(matches!(e.run_function("spin", &vec![], 50), Err(Error::Message(_))));

    Ok(())
}

#[test]
fn constants_fold_without_a_module() -> Result<(), Error> {
    let ctx = Context::new()?;
    let i8t = Type::i8(&ctx)?;
    let i64t = Type::i64(&ctx)?;

    // wrapping addition at width 8
    let a = Const::integer(i8t, 200)?;
    let b = Const::integer(i8t, 100)?;
    assert_eq!(a.add(b)?.get_unsigned_int(), Some(44));
    assert_eq!(a.sub(b)?.get_unsigned_int(), Some(100));
    assert_eq!(a.mul(b)?.get_unsigned_int(), Some((200 * 100) % 256));

    // sign extension and signed reads
    let neg = Const::int_sext(i8t, -1)?;
    assert_eq!(neg.get_unsigned_int(), Some(0xff));
    assert_eq!(neg.get_signed_int(), Some(-1));

    // bitwise folds
    let x = Const::integer(i64t, 0b1100)?;
    let y = Const::integer(i64t, 0b1010)?;
    assert_eq!(x.and(y)?.get_unsigned_int(), Some(0b1000));
    assert_eq!(x.or(y)?.get_unsigned_int(), Some(0b1110));
    assert_eq!(x.xor(y)?.get_unsigned_int(), Some(0b0110));
    assert_eq!(x.neg()?.get_signed_int(), Some(-12));
    assert_eq!(Const::integer(i8t, 0)?.not()?.get_unsigned_int(), Some(0xff));

    // signed comparison at width 8: -1 < 0 signed, but not unsigned
    let zero = Const::integer(i8t, 0)?;
    let slt = neg.icmp(llama::Icmp::Slt, zero)?;
    assert_eq!(slt.get_unsigned_int(), Some(1));
    let ult = neg.icmp(llama::Icmp::Ult, zero)?;
    assert_eq!(ult.get_unsigned_int(), Some(0));

    // folding is refused across distinct types, as a null foreign result
    let wide = Const::integer(i64t, 1)?;
    assert!(matches!(a.add(wide), Err(Error::NullPointer)));

    Ok(())
}
