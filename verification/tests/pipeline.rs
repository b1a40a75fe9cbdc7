use llama::AttributeIndex;
use llama::Build;
use llama::Builder;
use llama::Codegen;
use llama::Const;
use llama::Context;
use llama::Error;
use llama::FuncType;
use llama::MemoryBuffer;
use llama::Message;
use llama::Module;
use llama::Type;
use llama::TypeKind;
use llama::Value;
use llama::ValueKind;

fn module_with_three_functions(ctx: &Context) -> Result<Module, Error> {
    let mut m = Module::new(ctx, "three")?;
    let i64t = Type::i64(ctx)?;
    let ft = FuncType::new(i64t, vec![])?;
    let one = Const::integer(i64t, 1)?.value();
    for name in ["a", "b", "c"] {
        let f = m.define_function(name, ft.clone())?;
        let mut b = Builder::new(ctx)?;
        b.begin_function(&f)?;
        b.ret(one)?;
        m.install_body(&mut b)?;
    }
    m.verify()?;
    Ok(m)
}

#[test]
fn codegen_reports_every_defined_symbol() -> Result<(), Error> {
    let ctx = Context::new()?;
    let m = module_with_three_functions(&ctx)?;

    // requesting one export still yields the complete symbol list
    let cg = Codegen::new(&m, &vec![String::from("a")])?;
    let symbols: Vec<&str> = cg.symbols().iter().map(|s| s.as_str()).collect();
    assert_eq!(symbols, ["a", "b", "c"]);
    assert!(!cg.as_slice().is_empty());

    Ok(())
}

#[test]
fn codegen_is_deterministic_across_overlapping_compiles() -> Result<(), Error> {
    let ctx = Context::new()?;
    let m1 = module_with_three_functions(&ctx)?;
    let mut m2 = Module::new(&ctx, "other")?;
    let i64t = Type::i64(&ctx)?;
    let f = m2.define_function("solo", FuncType::new(i64t, vec![])?)?;
    let mut b = Builder::new(&ctx)?;
    b.begin_function(&f)?;
    let v = Const::integer(i64t, 7)?.value();
    b.ret(v)?;
    m2.install_body(&mut b)?;

    // interleave compilations of independent modules
    let first = Codegen::new(&m1, &vec![String::from("a")])?;
    let other = Codegen::new(&m2, &vec![String::from("solo")])?;
    let second = Codegen::new(&m1, &vec![String::from("b")])?;

    assert_eq!(first.as_slice(), second.as_slice());
    assert_eq!(first.symbols(), second.symbols());
    assert_ne!(first.as_slice(), other.as_slice());
    let other_symbols: Vec<&str> = other.symbols().iter().map(|s| s.as_str()).collect();
    assert_eq!(other_symbols, ["solo"]);

    Ok(())
}

#[test]
fn malformed_modules_are_refused_with_a_diagnostic() -> Result<(), Error> {
    let ctx = Context::new()?;
    let mut m = Module::new(&ctx, "broken")?;
    let i64t = Type::i64(&ctx)?;
    let f = m.define_function("f", FuncType::new(i64t, vec![])?)?;

    // a body whose entry block has no terminator
    let mut b = Builder::new(&ctx)?;
    b.begin_function(&f)?;
    let one = Const::integer(i64t, 1)?.value();
    b.add(one, one, "a")?;
    m.install_body(&mut b)?;

    assert!(matches!(m.verify(), Err(Error::Message(_))));
    assert!(matches!(f.verify(&m), Err(Error::InvalidFunction)));
    assert!(matches!(
        Codegen::new(&m, &vec![String::from("f")]),
        Err(Error::Message(_))
    ));

    Ok(())
}

#[test]
fn bitcode_buffers_carry_the_serialized_module() -> Result<(), Error> {
    let ctx = Context::new()?;
    let m = module_with_three_functions(&ctx)?;

    let buf = m.write_bitcode_to_memory_buffer()?;
    assert!(!buf.is_empty());
    // word-aligned little-endian encoding
    assert_eq!(buf.len() % 8, 0);
    // the identifier's character count leads the buffer
    assert_eq!(buf.as_slice()[0], 5);

    // the artifact of a compilation is exactly the serialized module
    let cg = Codegen::new(&m, &vec![String::from("a")])?;
    assert_eq!(cg.as_slice(), buf.as_slice());

    let copy = MemoryBuffer::from_slice(buf.as_slice())?;
    assert_eq!(copy.len(), buf.len());
    assert_eq!(copy.as_slice(), buf.as_slice());

    Ok(())
}

#[test]
fn messages_preserve_their_text() {
    let msg = Message::from_raw(String::from("optimizer failure"));
    assert!(!msg.is_empty());
    assert_eq!(msg.len(), 17);
    assert_eq!(msg.as_str(), "optimizer failure");
    assert_eq!(msg.into_string(), String::from("optimizer failure"));

    let empty = Message::from_raw(String::new());
    assert!(empty.is_empty());
}

#[test]
fn attribute_indices_map_to_foreign_slots() {
    assert_eq!(AttributeIndex::Return.get_index(), 0);
    assert_eq!(AttributeIndex::Param(0).get_index(), 1);
    assert_eq!(AttributeIndex::Param(3).get_index(), 4);
    assert_eq!(AttributeIndex::Func.get_index(), u32::MAX);
}

#[test]
fn build_collects_files_flags_and_compiler() {
    let mut build = Build::new();
    build.file("runtime.ll").file("shim.bc").flag("-O2").compiler("clang");

    let files: Vec<&str> = build.files().iter().map(|s| s.as_str()).collect();
    assert_eq!(files, ["runtime.ll", "shim.bc"]);
    let flags: Vec<&str> = build.flags().iter().map(|s| s.as_str()).collect();
    assert_eq!(flags, ["-O2"]);
    assert_eq!(build.compiler_name().as_deref(), Some("clang"));

    assert!(Build::new().compiler_name().is_none());
}

#[test]
fn types_and_values_expose_their_kinds() -> Result<(), Error> {
    let ctx = Context::new()?;

    assert!(matches!(Type::integer(&ctx, 0), Err(Error::NullPointer)));
    assert!(matches!(Type::integer(&ctx, usize::MAX), Err(Error::NullPointer)));

    let odd = Type::integer(&ctx, 23)?;
    assert_eq!(odd.int_width(), 23);
    assert!(odd.is(TypeKind::Integer));

    assert!(Type::void(&ctx)?.is(TypeKind::Void));
    assert!(Type::float(&ctx)?.is(TypeKind::Float));
    assert!(Type::double(&ctx)?.is(TypeKind::Double));
    assert_eq!(Type::i16(&ctx)?.int_width(), 16);
    assert_eq!(Type::i8(&ctx)?.int_width(), 8);
    assert_eq!(Type::i1(&ctx)?.int_width(), 1);

    let c = Const::integer(Type::i64(&ctx)?, 9)?;
    assert!(c.value().is(ValueKind::Constant));
    assert!(c.value().is_const());
    assert!(c.value().to_const().is_ok());
    assert_eq!(c.value().type_of()?.int_width(), 64);

    let not_const = Value::Param { func: 0, index: 0, ty: Type::i64(&ctx)? };
    assert!(matches!(not_const.to_const(), Err(Error::InvalidConst)));
    assert!(not_const.is(ValueKind::Argument));

    // a function type refuses an empty-typed parameter
    assert!(matches!(
        FuncType::new(Type::i64(&ctx)?, vec![Type::void(&ctx)?]),
        Err(Error::NullPointer)
    ));

    Ok(())
}

#[test]
fn modules_keep_identity_and_layout_strings() -> Result<(), Error> {
    let ctx = Context::new()?;
    let mut m = Module::new(&ctx, "strings")?;
    assert_eq!(m.identifier()?, "strings");
    assert_eq!(m.target()?, "");

    m.set_target("x86_64-unknown-linux-gnu");
    assert_eq!(m.target()?, "x86_64-unknown-linux-gnu");

    m.set_data_layout("e-m:e");
    assert_eq!(m.data_layout()?, "e-m:e");

    m.set_wasm32();
    assert_eq!(m.target()?, "wasm32");
    assert_eq!(m.data_layout()?, "p:32:32:32");

    // function listing and lookup
    let i64t = Type::i64(&ctx)?;
    let ft = FuncType::new(i64t, vec![])?;
    m.define_function("first", ft.clone())?;
    m.define_function("second", ft)?;
    assert_eq!(m.function_count(), 2);

    let f = m.named_function("second")?;
    assert_eq!(m.function_name(&f)?, "second");
    assert!(matches!(m.named_function("third"), Err(Error::NullPointer)));

    let first = m.first_function()?;
    assert_eq!(m.function_name(&first)?, "first");
    let second = m.next_function(&first)?;
    assert_eq!(m.function_name(&second)?, "second");
    assert!(matches!(m.next_function(&second), Err(Error::NullPointer)));
    let last = m.last_function()?;
    assert_eq!(m.function_name(&last)?, "second");
    let back = m.prev_function(&last)?;
    assert_eq!(m.function_name(&back)?, "first");

    Ok(())
}


#[test]
fn bitcode_round_trips_through_the_parser() -> Result<(), Error> {
    let ctx = Context::new()?;

    // a module exercising every operation kind
    let mut m = Module::new(&ctx, "round")?;
    let i64t = Type::i64(&ctx)?;
    let f64t = Type::double(&ctx)?;
    let callee = {
        let f = m.define_function("callee", FuncType::new(i64t, vec![i64t])?)?;
        let mut b = Builder::new(&ctx)?;
        b.begin_function(&f)?;
        let one = Const::integer(i64t, 1)?.value();
        let s = b.add(f.param(0)?, one, "s")?;
        b.ret(s)?;
        m.install_body(&mut b)?;
        f
    };
    let f = m.define_function("caller", FuncType::new(i64t, vec![i64t, f64t])?)?;
    let mut b = Builder::new(&ctx)?;
    b.begin_function(&f)?;
    let x = f.param(0)?;
    let fl = f.param(1)?;
    let two = Const::integer(i64t, 2)?.value();
    let s = b.sub(x, two, "d")?;
    let s = b.mul(s, two, "m")?;
    let s = b.and(s, two, "a")?;
    let s = b.or(s, two, "o")?;
    let s = b.xor(s, two, "x")?;
    let c = b.icmp(llama::Icmp::Ule, s, two, "c")?;
    let fc = b.fcmp(llama::Fcmp::Ogt, fl, fl, "fc")?;
    let _ = b.and(c, fc, "cc")?;
    let called = b.call(&callee, vec![x], "call")?;
    let tgt = b.append_block("tail")?;
    b.cond_br(c, tgt, tgt)?;
    b.position_at_end(tgt);
    let phi = b.phi(i64t, "p")?;
    phi.add_incoming(&mut b, &vec![(called, llama::BasicBlock { id: 0 })]);
    b.ret(phi.value)?;
    m.install_body(&mut b)?;
    m.verify()?;

    let buf = m.write_bitcode_to_memory_buffer()?;
    let parsed = Module::parse_bitcode(&ctx, &buf).expect("own bitcode re-materializes");

    // the whole module survives: identifier, function names, structure
    assert_eq!(parsed.function_count(), 2);
    assert_eq!(parsed.identifier()?, "round");
    let first = parsed.first_function()?;
    assert_eq!(parsed.function_name(&first)?, "callee");
    let looked_up = parsed.named_function("caller")?;
    assert_eq!(parsed.function_name(&looked_up)?, "caller");
    parsed.verify()?;

    // serializing the re-materialized module gives back the same bytes
    let again = parsed.write_bitcode_to_memory_buffer()?;
    assert_eq!(again.as_slice(), buf.as_slice());

    // and its semantics are unchanged: callee(4) == 5 either way,
    // looked up by name on both sides
    let e_orig = llama::ExecutionEngine::new(m)?;
    assert_eq!(e_orig.run_function("callee", &vec![4], 100)?, 5);
    let e_new = llama::ExecutionEngine::new(parsed)?;
    assert_eq!(e_new.run_function("callee", &vec![4], 100)?, 5);

    // a truncated buffer is refused
    let mut broken = buf.as_slice().clone();
    broken.pop();
    assert!(Module::parse_bitcode(&ctx, &MemoryBuffer::from_slice(&broken)?).is_none());

    Ok(())
}
