//! Indexing scenarios: item paths, captures, suspension legality,
//! imports, error accumulation and macro expansion.

use rune::{
    compile, Build, CompileErrorKind, Component, Context, Indexed, Item, LoadErrorKind,
    MacroTable, Module, SourceLoader,
};

fn plain_compile(source: &str) -> rune::Worker {
    compile(
        source,
        Context::new(),
        SourceLoader::new(),
        MacroTable::new(),
    )
}

fn item_of(names: &[&str]) -> Item {
    let mut item = Item::new();
    for name in names {
        item.push_name(name);
    }
    item
}

fn item_with(names: &[&str], tail: Component) -> Item {
    let mut item = item_of(names);
    item.push(tail);
    item
}

/// The path of an anonymous construct directly inside a function body:
/// the body block itself is the function's first anonymous block.
fn in_body(function: &str, tail: Component) -> Item {
    let mut item = item_of(&[function]);
    item.push(Component::Block(0));
    item.push(tail);
    item
}

#[test]
fn toplevel_function_gets_meta_and_build() {
    let worker = plain_compile("fn main() { }");
    assert_eq!(0, worker.errors.len());
    let main_item = item_of(&["main"]);
    let entry = worker.indexer.query.find_build(&main_item).expect("main scheduled");
    match &entry.build {
        Build::Function(f) => assert_eq!("main", f.ast.name.ident),
        _ => panic!("expected a plain function build"),
    }
    let meta = worker
        .indexer
        .query
        .unit
        .lookup(&main_item)
        .expect("main has metadata");
    assert_eq!("fn main", meta.describe());
}

#[test]
fn sibling_closures_get_distinct_paths() {
    let worker = plain_compile("fn main() { let a = || 1; let b = || 2; }");
    assert_eq!(0, worker.errors.len());
    let first = in_body("main", Component::Closure(0));
    let second = in_body("main", Component::Closure(1));
    assert!(worker.indexer.query.indexed_entry(&first).is_some());
    assert!(worker.indexer.query.indexed_entry(&second).is_some());
    assert!(!first.eq_item(&second));
}

#[test]
fn closure_captures_exactly_once_in_first_use_order() {
    let worker = plain_compile(
        "fn main() { let x = 1; let y = 2; let f = || y + x + y; }",
    );
    assert_eq!(0, worker.errors.len());
    let closure = in_body("main", Component::Closure(0));
    let entry = worker.indexer.query.indexed_entry(&closure).expect("closure indexed");
    match &entry.indexed {
        Indexed::Closure { captures, .. } => {
            assert_eq!(2, captures.len());
            assert_eq!("y", captures[0]);
            assert_eq!("x", captures[1]);
        }
        _ => panic!("expected a closure entry"),
    }
}

#[test]
fn nested_closures_capture_transitively() {
    let worker = plain_compile("fn main() { let x = 1; let f = || { let g = || x; }; }");
    assert_eq!(0, worker.errors.len());
    let outer = in_body("main", Component::Closure(0));
    let entry = worker.indexer.query.indexed_entry(&outer).expect("outer closure");
    match &entry.indexed {
        Indexed::Closure { captures, .. } => {
            assert_eq!(vec!["x".to_owned()], *captures);
        }
        _ => panic!("expected a closure entry"),
    }
}

#[test]
fn local_use_is_not_a_capture() {
    let worker = plain_compile("fn main() { let f = |x| x + 1; }");
    assert_eq!(0, worker.errors.len());
    let closure = in_body("main", Component::Closure(0));
    let entry = worker.indexer.query.indexed_entry(&closure).expect("closure indexed");
    match &entry.indexed {
        Indexed::Closure { captures, .. } => assert_eq!(0, captures.len()),
        _ => panic!("expected a closure entry"),
    }
}

#[test]
fn await_outside_async_frame_fails_without_build() {
    let worker = plain_compile("fn main() { f().await }");
    assert_eq!(1, worker.errors.len());
    match &worker.errors.get(0).kind {
        LoadErrorKind::Compile(e) => {
            assert!(matches!(e.kind, CompileErrorKind::AwaitOutsideAsync));
        }
        _ => panic!("expected a compile error"),
    }
    let main_item = item_of(&["main"]);
    assert!(worker.indexer.query.find_build(&main_item).is_none());
}

#[test]
fn await_inside_async_function_is_legal() {
    let worker = plain_compile("async fn main() { f().await }");
    assert_eq!(0, worker.errors.len());
    let main_item = item_of(&["main"]);
    let entry = worker.indexer.query.find_build(&main_item).expect("main scheduled");
    match &entry.build {
        Build::Function(f) => assert!(matches!(f.call, rune::Call::Async)),
        _ => panic!("expected a plain function build"),
    }
}

#[test]
fn yield_makes_a_generator() {
    let worker = plain_compile("fn main() { yield 1 }");
    assert_eq!(0, worker.errors.len());
    let entry = worker
        .indexer
        .query
        .find_build(&item_of(&["main"]))
        .expect("main scheduled");
    match &entry.build {
        Build::Function(f) => assert!(matches!(f.call, rune::Call::Generator)),
        _ => panic!("expected a plain function build"),
    }
}

#[test]
fn async_block_marks_async_call() {
    let worker = plain_compile("fn main() { let f = async { g().await }; }");
    assert_eq!(0, worker.errors.len());
    let block_item = in_body("main", Component::AsyncBlock(0));
    let entry = worker.indexer.query.indexed_entry(&block_item).expect("async block");
    match &entry.indexed {
        Indexed::AsyncBlock { call, .. } => assert!(matches!(call, rune::Call::Async)),
        _ => panic!("expected an async block entry"),
    }
}

fn three_child_context() -> Context {
    let mut module = Module::new(item_of(&["a"]));
    module.ty(vec!["x".to_owned()]).unwrap();
    module.ty(vec!["y".to_owned()]).unwrap();
    module.ty(vec!["z".to_owned()]).unwrap();
    let mut context = Context::new();
    context.install(module);
    context
}

#[test]
fn wildcard_import_expands_to_three_entries() {
    let worker = compile(
        "use a::*;",
        three_child_context(),
        SourceLoader::new(),
        MacroTable::new(),
    );
    assert_eq!(0, worker.errors.len());
    let unit = &worker.indexer.query.unit;
    assert_eq!(3, unit.import_count());
    let mut names: Vec<String> = Vec::new();
    for i in 0..unit.import_count() {
        names.push(unit.import_at(i).name.display_string());
    }
    names.sort();
    assert_eq!(vec!["a::x", "a::y", "a::z"], names);
}

#[test]
fn wildcard_import_of_unknown_prefix_is_missing_module() {
    let worker = plain_compile("use nowhere::*;");
    assert_eq!(1, worker.errors.len());
    match &worker.errors.get(0).kind {
        LoadErrorKind::Compile(e) => {
            assert!(matches!(e.kind, CompileErrorKind::MissingModule { .. }));
        }
        _ => panic!("expected a compile error"),
    }
}

#[test]
fn plain_import_makes_one_entry() {
    let worker = compile(
        "use a::x;",
        three_child_context(),
        SourceLoader::new(),
        MacroTable::new(),
    );
    assert_eq!(0, worker.errors.len());
    let unit = &worker.indexer.query.unit;
    assert_eq!(1, unit.import_count());
    assert_eq!("a::x", unit.import_at(0).name.display_string());
}

#[test]
fn interior_wildcard_is_unsupported() {
    let worker = plain_compile("use a::*::b;");
    assert_eq!(1, worker.errors.len());
    match &worker.errors.get(0).kind {
        LoadErrorKind::Compile(e) => {
            assert!(matches!(e.kind, CompileErrorKind::UnsupportedWildcard));
        }
        _ => panic!("expected a compile error"),
    }
}

#[test]
fn duplicate_declarations_conflict() {
    let worker = plain_compile("struct A; struct A;");
    assert_eq!(1, worker.errors.len());
    match &worker.errors.get(0).kind {
        LoadErrorKind::Compile(e) => match &e.kind {
            CompileErrorKind::MetaConflict { item, existing } => {
                // The error names the conflicting path and the prior
                // declaration site.
                assert_eq!("A", item.display_string());
                assert!(existing.is_some());
            }
            _ => panic!("expected a duplicate-declaration error"),
        },
        _ => panic!("expected a compile error"),
    }
}

#[test]
fn two_unrelated_failures_both_reported() {
    // The import and the attribute failure live in different tasks, so
    // both are recorded by one pass.
    let worker = plain_compile("use nowhere::*; #[gate] struct A;");
    assert_eq!(2, worker.errors.len());
    match &worker.errors.get(0).kind {
        LoadErrorKind::Compile(e) => {
            assert!(matches!(e.kind, CompileErrorKind::UnsupportedSyntax { .. }));
        }
        _ => panic!("expected a compile error"),
    }
    match &worker.errors.get(1).kind {
        LoadErrorKind::Compile(e) => {
            assert!(matches!(e.kind, CompileErrorKind::MissingModule { .. }));
        }
        _ => panic!("expected a compile error"),
    }
}

#[test]
fn expression_macro_expands_in_snapshotted_context() {
    let mut macros = MacroTable::new();
    macros.register("stub".to_owned(), "|| 3".to_owned());
    let worker = compile(
        "fn main() { stub!() }",
        Context::new(),
        SourceLoader::new(),
        macros,
    );
    assert_eq!(0, worker.errors.len());
    let mut closure = in_body("main", Component::Macro(0));
    closure.push(Component::Closure(0));
    assert!(worker.indexer.query.indexed_entry(&closure).is_some());
    assert_eq!(1, worker.expanded.len());
}

#[test]
fn item_macro_restores_item_position() {
    let mut macros = MacroTable::new();
    macros.register("declare_x".to_owned(), "struct X;".to_owned());
    let worker = compile(
        "declare_x!();",
        Context::new(),
        SourceLoader::new(),
        macros,
    );
    assert_eq!(0, worker.errors.len());
    let x_item = item_of(&["X"]);
    assert!(worker.indexer.query.indexed_entry(&x_item).is_some());
}

#[test]
fn missing_macro_is_reported() {
    let worker = plain_compile("fn main() { nope!() }");
    assert_eq!(1, worker.errors.len());
    match &worker.errors.get(0).kind {
        LoadErrorKind::Compile(e) => {
            assert!(matches!(e.kind, CompileErrorKind::MissingMacro { .. }));
        }
        _ => panic!("expected a compile error"),
    }
}

#[test]
fn file_module_loads_registered_source() {
    let mut loader = SourceLoader::new();
    loader.register(item_of(&["sub"]), "const Q = 9;".to_owned());
    let mut sources = rune::Sources::new();
    let source_id = sources.insert("mod sub;".to_owned(), Some("root".to_owned()));
    let mut queue: Vec<rune::Task> = Vec::new();
    queue.push(rune::Task::LoadFile {
        kind: rune::LoadFileKind::Root,
        item: Item::new(),
        source_id,
    });
    let mut worker = rune::Worker::new(
        queue,
        Context::new(),
        sources,
        loader,
        MacroTable::new(),
    );
    worker.run();
    assert_eq!(0, worker.errors.len());
    let q_item = item_of(&["sub", "Q"]);
    assert!(worker.indexer.query.indexed_entry(&q_item).is_some());
}

#[test]
fn duplicate_file_module_load_is_reported() {
    let mut loader = SourceLoader::new();
    loader.register(item_of(&["sub"]), "const Q = 9;".to_owned());
    let mut sources = rune::Sources::new();
    let source_id = sources.insert("mod sub; mod sub;".to_owned(), Some("root".to_owned()));
    let mut queue: Vec<rune::Task> = Vec::new();
    queue.push(rune::Task::LoadFile {
        kind: rune::LoadFileKind::Root,
        item: Item::new(),
        source_id,
    });
    let mut worker = rune::Worker::new(
        queue,
        Context::new(),
        sources,
        loader,
        MacroTable::new(),
    );
    worker.run();
    assert_eq!(1, worker.errors.len());
    match &worker.errors.get(0).kind {
        LoadErrorKind::Compile(e) => {
            assert!(matches!(e.kind, CompileErrorKind::ModAlreadyLoaded { .. }));
        }
        _ => panic!("expected a compile error"),
    }
}

#[test]
fn module_without_root_is_unsupported() {
    let worker = plain_compile("mod sub;");
    assert_eq!(1, worker.errors.len());
    match &worker.errors.get(0).kind {
        LoadErrorKind::Compile(e) => {
            assert!(matches!(e.kind, CompileErrorKind::UnsupportedModuleSource));
        }
        _ => panic!("expected a compile error"),
    }
}

#[test]
fn instance_function_requires_impl_context() {
    let worker = plain_compile("impl Thing { fn touch(self) { } }");
    assert_eq!(0, worker.errors.len());
    let method = item_of(&["Thing", "touch"]);
    let entry = worker.indexer.query.find_build(&method).expect("method scheduled");
    match &entry.build {
        Build::InstanceFunction(f) => {
            assert_eq!("Thing", f.impl_item.display_string());
        }
        _ => panic!("expected an instance function build"),
    }

    let worker = plain_compile("fn touch(self) { }");
    assert_eq!(1, worker.errors.len());
    match &worker.errors.get(0).kind {
        LoadErrorKind::Compile(e) => {
            assert!(matches!(
                e.kind,
                CompileErrorKind::InstanceFunctionOutsideImpl
            ));
        }
        _ => panic!("expected a compile error"),
    }
}

#[test]
fn unnecessary_semi_colon_warns() {
    let worker = plain_compile("fn main() { };");
    assert_eq!(0, worker.errors.len());
    assert_eq!(1, worker.indexer.warnings.len());
}

#[test]
fn float_package_registers_names() {
    let module = rune::packages::float::module().unwrap();
    let mut context = Context::new();
    context.install(module);
    assert!(context.contains_prefix(&item_of(&["std", "float"])));
    let children = context.iter_components(&item_of(&["std", "float"]));
    assert_eq!(1, children.len());
    let mut parse_item = item_of(&["std", "float"]);
    match &children[0] {
        Component::Str(s) => assert_eq!("parse", s),
        _ => panic!("expected a named child"),
    }
    parse_item.push(children[0].clone());
    assert!(context.contains_prefix(&parse_item));
}

#[test]
fn type_hash_is_a_function_of_the_path() {
    let a1 = rune::TypeHash::type_hash(&item_of(&["a"]));
    let a2 = rune::TypeHash::type_hash(&item_of(&["a"]));
    let b = rune::TypeHash::type_hash(&item_of(&["b"]));
    assert_eq!(a1.value, a2.value);
    assert_ne!(a1.value, b.value);
}

#[test]
fn for_loop_iterator_is_in_parent_scope() {
    let worker = plain_compile(
        "fn main() { let xs = 1; for x in xs { } let f = || x; }",
    );
    assert_eq!(0, worker.errors.len());
    let closure = in_body("main", Component::Closure(0));
    let entry = worker.indexer.query.indexed_entry(&closure).expect("closure indexed");
    match &entry.indexed {
        Indexed::Closure { captures, .. } => {
            // The loop variable went out of scope with the loop, so the
            // closure's use of `x` resolves to nothing and captures
            // nothing.
            assert_eq!(0, captures.len());
        }
        _ => panic!("expected a closure entry"),
    }
}

#[test]
fn parse_with_label_reads_a_for_loop() {
    let tokens = rune::lex("for i in xs { }").unwrap();
    let mut parser = rune::Parser::new(tokens);
    let expr_for = rune::ast::ExprFor::parse_with_label(&mut parser, None, 32).unwrap();
    assert_eq!("i", expr_for.var.ident);
    assert!(expr_for.label.is_none());
}

#[test]
fn compile_meta_item_and_type_of() {
    let item = item_of(&["main"]);
    let type_of = rune::Type::of_hash(rune::TypeHash::type_hash(&item));
    let meta = rune::CompileMeta {
        kind: rune::CompileMetaKind::Function {
            type_of,
            item: item_of(&["main"]),
        },
        source: None,
    };
    assert!(meta.item().eq_item(&item));
    assert_eq!(Some(type_of), meta.type_of());
    let const_meta = rune::CompileMeta {
        kind: rune::CompileMetaKind::Const {
            const_value: rune::ConstValue::Integer(7),
            item: item_of(&["K"]),
        },
        source: None,
    };
    assert_eq!("const K", const_meta.describe());
    assert!(const_meta.type_of().is_none());
}

#[test]
fn enum_and_variants_are_indexed() {
    let worker = plain_compile("enum E { A, B(x), C { y } }");
    assert_eq!(0, worker.errors.len());
    assert!(worker.indexer.query.indexed_entry(&item_of(&["E"])).is_some());
    assert!(worker.indexer.query.indexed_entry(&item_of(&["E", "A"])).is_some());
    assert!(worker.indexer.query.indexed_entry(&item_of(&["E", "B"])).is_some());
    assert!(worker.indexer.query.indexed_entry(&item_of(&["E", "C"])).is_some());
}

#[test]
fn query_meta_converts_indexed_declarations() {
    let mut worker = plain_compile(
        "struct P { a, b } enum E { T(x) } const K = 40 + 2;",
    );
    assert_eq!(0, worker.errors.len());
    let query = &mut worker.indexer.query;

    rune::query_meta(query, &item_of(&["P"]), 8).unwrap();
    let meta = query.unit.lookup(&item_of(&["P"])).expect("struct meta");
    assert_eq!("struct P", meta.describe());
    match &meta.kind {
        rune::CompileMetaKind::Struct { object, .. } => {
            assert_eq!(
                Some(vec!["a".to_owned(), "b".to_owned()]),
                object.fields.clone()
            );
        }
        _ => panic!("expected a record struct meta"),
    }

    rune::query_meta(query, &item_of(&["E", "T"]), 8).unwrap();
    let meta = query.unit.lookup(&item_of(&["E", "T"])).expect("variant meta");
    match &meta.kind {
        rune::CompileMetaKind::TupleVariant { enum_item, tuple, .. } => {
            assert_eq!("E", enum_item.display_string());
            assert_eq!(1, tuple.args);
        }
        _ => panic!("expected a tuple variant meta"),
    }

    rune::query_meta(query, &item_of(&["K"]), 8).unwrap();
    let meta = query.unit.lookup(&item_of(&["K"])).expect("const meta");
    match &meta.kind {
        rune::CompileMetaKind::Const { const_value, .. } => {
            assert!(matches!(const_value, rune::ConstValue::Integer(42)));
        }
        _ => panic!("expected a const meta"),
    }

    // A second query finds the metadata already in place.
    rune::query_meta(query, &item_of(&["K"]), 8).unwrap();
}

#[test]
fn anonymous_siblings_get_increasing_indices() {
    let mut items = rune::Items::new();
    items.push_name("root");
    items.push_anon(rune::AnonKind::Block).unwrap();
    let first = items.item();
    items.pop();
    items.push_anon(rune::AnonKind::Block).unwrap();
    let second = items.item();
    assert_eq!("root::$block0", first.display_string());
    assert_eq!("root::$block1", second.display_string());
    assert!(!first.eq_item(&second));
}

#[test]
fn snapshot_resumes_with_identical_paths() {
    let mut items = rune::Items::new();
    items.push_name("root");
    items.push_anon(rune::AnonKind::Closure).unwrap();
    items.pop();
    let mut resumed = items.snapshot();
    items.push_anon(rune::AnonKind::Closure).unwrap();
    let live = items.item();
    resumed.push_anon(rune::AnonKind::Closure).unwrap();
    let replayed = resumed.item();
    assert!(live.eq_item(&replayed));
    assert_eq!("root::$closure1", replayed.display_string());
}

#[test]
fn nested_function_is_recorded_for_lazy_scheduling() {
    let worker = plain_compile("fn main() { fn helper() { } }");
    assert_eq!(0, worker.errors.len());
    let helper = in_body("main", Component::Str("helper".to_owned()));
    let entry = worker.indexer.query.indexed_entry(&helper).expect("helper indexed");
    match &entry.indexed {
        Indexed::Function { call, .. } => assert!(matches!(call, rune::Call::Immediate)),
        _ => panic!("expected a lazy function entry"),
    }
    assert!(worker.indexer.query.find_build(&helper).is_none());
}

#[test]
fn async_generator_is_a_stream() {
    let worker = plain_compile("async fn main() { yield 1 }");
    assert_eq!(0, worker.errors.len());
    let entry = worker
        .indexer
        .query
        .find_build(&item_of(&["main"]))
        .expect("main scheduled");
    match &entry.build {
        Build::Function(f) => assert!(matches!(f.call, rune::Call::Stream)),
        _ => panic!("expected a plain function build"),
    }
}

#[test]
fn closure_self_argument_is_unsupported() {
    let worker = plain_compile("fn main() { let f = |self| 1; }");
    assert_eq!(1, worker.errors.len());
    match &worker.errors.get(0).kind {
        LoadErrorKind::Compile(e) => {
            assert!(matches!(e.kind, CompileErrorKind::UnsupportedSelf));
        }
        _ => panic!("expected a compile error"),
    }
}

#[test]
fn missing_module_source_is_reported() {
    let mut sources = rune::Sources::new();
    let source_id = sources.insert("mod sub;".to_owned(), Some("root".to_owned()));
    let mut queue: Vec<rune::Task> = Vec::new();
    queue.push(rune::Task::LoadFile {
        kind: rune::LoadFileKind::Root,
        item: Item::new(),
        source_id,
    });
    let mut worker = rune::Worker::new(
        queue,
        Context::new(),
        sources,
        SourceLoader::new(),
        MacroTable::new(),
    );
    worker.run();
    assert_eq!(1, worker.errors.len());
    match &worker.errors.get(0).kind {
        LoadErrorKind::Compile(e) => {
            assert!(matches!(e.kind, CompileErrorKind::MissingSourceFile { .. }));
        }
        _ => panic!("expected a compile error"),
    }
}

#[test]
fn bad_number_literal_is_reported() {
    let errors = rune::eval_entry("const A = 0x; fn main() { A }").unwrap_err();
    match &errors.get(0).kind {
        LoadErrorKind::Compile(e) => {
            assert!(matches!(e.kind, CompileErrorKind::BadNumberLiteral));
        }
        _ => panic!("expected a compile error"),
    }
}

#[test]
fn unsupported_constant_expression_is_reported() {
    let errors = rune::eval_entry("const A = f(); fn main() { A }").unwrap_err();
    match &errors.get(0).kind {
        LoadErrorKind::Compile(e) => {
            assert!(matches!(e.kind, CompileErrorKind::UnsupportedConstExpr));
        }
        _ => panic!("expected a compile error"),
    }
}

#[test]
fn empty_source_compiles_cleanly() {
    let worker = plain_compile("");
    assert_eq!(0, worker.errors.len());
    assert_eq!(0, worker.indexer.warnings.len());
    assert_eq!(0, worker.indexer.query.unit.import_count());
}

#[test]
fn nested_constant_keeps_its_initializer() {
    let worker = plain_compile("fn main() { const K = 5 + 1; }");
    assert_eq!(0, worker.errors.len());
    let k_item = in_body("main", Component::Str("K".to_owned()));
    let entry = worker.indexer.query.indexed_entry(&k_item).expect("constant indexed");
    match &entry.indexed {
        Indexed::Const { expr } => {
            assert!(matches!(**expr, rune::ast::Expr::ExprBinary(_)));
        }
        _ => panic!("expected a constant entry"),
    }
}

#[test]
fn nested_function_keeps_its_declaration() {
    let worker = plain_compile("fn main() { fn helper(a) { a } }");
    assert_eq!(0, worker.errors.len());
    let helper = in_body("main", Component::Str("helper".to_owned()));
    let entry = worker.indexer.query.indexed_entry(&helper).expect("helper indexed");
    match &entry.indexed {
        Indexed::Function { ast, impl_item, .. } => {
            assert_eq!("helper", ast.name.ident);
            assert_eq!(1, ast.args.len());
            assert!(impl_item.is_none());
        }
        _ => panic!("expected a lazy function entry"),
    }
}

#[test]
fn nested_impl_records_instance_context() {
    let worker = plain_compile("fn main() { impl Thing { fn touch(self) { } } }");
    assert_eq!(0, worker.errors.len());
    let mut method = in_body("main", Component::Str("Thing".to_owned()));
    method.push(Component::Str("touch".to_owned()));
    let entry = worker.indexer.query.indexed_entry(&method).expect("method indexed");
    match &entry.indexed {
        Indexed::Function { ast, impl_item, .. } => {
            assert_eq!("touch", ast.name.ident);
            match impl_item {
                Some(item) => assert!(item.display_string().ends_with("Thing")),
                None => panic!("expected the enclosing impl context"),
            }
        }
        _ => panic!("expected a lazy function entry"),
    }
}

#[test]
fn item_macro_with_bad_snapshot_is_an_internal_error() {
    // An item-expansion task whose snapshotted path does not end in a
    // macro component signals a defect of the core, not user input.
    let mut worker = rune::Worker::new(
        Vec::new(),
        Context::new(),
        rune::Sources::new(),
        SourceLoader::new(),
        MacroTable::new(),
    );
    let tokens = rune::lex("gone!()").unwrap();
    let mut parser = rune::Parser::new(tokens);
    let call = match rune::parse_item(&mut parser, 8).unwrap() {
        rune::ast::Item::MacroCall(call) => call,
        _ => panic!("expected a macro call"),
    };
    let mut items = rune::Items::new();
    items.push_name("plain");
    worker.run_one(rune::Task::ExpandMacro(rune::Macro {
        kind: rune::MacroKind::Item,
        root: None,
        items,
        ast: call,
        source_id: 7,
        scopes: rune::IndexScopes::new(),
        impl_items: Vec::new(),
    }));
    assert_eq!(1, worker.errors.len());
    assert_eq!(7, worker.errors.get(0).source_id);
    match &worker.errors.get(0).kind {
        LoadErrorKind::Compile(e) => {
            assert!(matches!(e.kind, CompileErrorKind::Internal { .. }));
        }
        _ => panic!("expected an internal consistency error"),
    }
}

#[test]
fn wildcard_entries_carry_scope_span_and_source() {
    let worker = compile(
        "use a::*;",
        three_child_context(),
        SourceLoader::new(),
        MacroTable::new(),
    );
    assert_eq!(0, worker.errors.len());
    let unit = &worker.indexer.query.unit;
    for i in 0..unit.import_count() {
        let entry = unit.import_at(i);
        assert_eq!("", entry.at.display_string());
        assert_eq!(0, entry.source_id);
    }
}

#[test]
fn empty_body_function_is_immediate_or_async() {
    let worker = plain_compile("fn a() { } async fn b() { }");
    assert_eq!(0, worker.errors.len());
    let a = worker.indexer.query.find_build(&item_of(&["a"])).expect("a scheduled");
    match &a.build {
        Build::Function(f) => assert!(matches!(f.call, rune::Call::Immediate)),
        _ => panic!("expected a plain function build"),
    }
    let b = worker.indexer.query.find_build(&item_of(&["b"])).expect("b scheduled");
    match &b.build {
        Build::Function(f) => assert!(matches!(f.call, rune::Call::Async)),
        _ => panic!("expected a plain function build"),
    }
}

#[test]
fn describe_and_display_render_paths() {
    let mut item = item_of(&["main"]);
    item.push(Component::Block(0));
    item.push(Component::Closure(2));
    assert_eq!("main::$block0::$closure2", item.display_string());
}
