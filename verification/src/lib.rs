//! Name-resolution and item-indexing core for an embeddable scripting
//! language: builds hierarchical item paths, tracks lexical scopes and
//! captures, registers declaration metadata, and drains a FIFO work queue
//! of indexing, import, file-load and macro-expansion tasks.

pub mod ast;
mod clone_ast;
mod compile_meta;
mod const_eval;
mod errors;
mod index;
mod index_scopes;
mod item;
mod items;
mod module;
mod parse;
pub mod packages;
mod query;
mod span;
mod text;
mod unit;
mod worker;

pub use compile_meta::{
    kind_item, kind_type_of, spec_meta_tag, spec_type_hash, CompileMeta, CompileMetaCapture,
    CompileMetaKind, CompileMetaStruct, CompileMetaTuple, CompileSource, ConstValue,
    ConstValueV, Type, TypeHash,
};
pub use clone_ast::{clone_block, clone_expr, clone_file, clone_item, clone_item_fn, clone_pat};
pub use const_eval::{binary_operands_supported, eval_const_expr, query_meta};
pub use errors::{
    CompileError, CompileErrorKind, Errors, LoadError, LoadErrorKind, ParseError, Warning,
    Warnings,
};
pub use index::{
    body_fields_attr_free, builds_preserved, file_item_declared, frame_restored,
    lemma_file_item_stays_declared, loaded_paths, spec_item_attributes, stmt_is_yield,
    stmts_have_yield, tasks_extend, yields_monotone, Indexer,
};
pub use index_scopes::{
    captures_distinct, find_declaring_level, innermost_frame, is_barrier, is_capturing_frame,
    lemma_capture_exactly_once, lemma_capture_first_use_order, lemma_captures_stay_distinct,
    lemma_innermost_frame_shape, lemma_mark_use_keeps_yields, level_declares, names_view,
    scope_shape, spec_mark_use, with_capture, ClosureInfo, FunctionInfo, IndexScopes,
    LevelKind, LevelV,
};
pub use item::{
    is_path_prefix, spec_component_text, spec_item_text, Component, ComponentV, Item,
};
pub use items::{
    anon_component, bumped, counter_of, fresh_counters, lemma_anonymous_siblings_distinct,
    lemma_snapshot_resume_exact, spec_anon_of, spec_pop, spec_push_anon, spec_push_name,
    AnonKind, Counters, Items, ItemsV,
};
pub use module::{
    components_view, is_child_of, paths_view, some_path_has_prefix, Context, ContextError,
    Module,
};
pub use query::{
    Build, BuildEntry, Call, Function, Indexed, IndexedEntry, InstanceFunction, Query, Used,
};
pub use parse::{
    lex, parse_block, parse_expr, parse_expr_text, parse_file, parse_item, parse_item_text,
    Parser, Token, TokenKind,
};
pub use span::{SourceId, Span};
pub use unit::{
    lemma_fresh_key_keeps_paths_distinct, paths_distinct, spec_source_of, ImportEntry,
    UnitBuilder,
};
pub use worker::{
    added_names, complete_run, fifo_run, import_prefix, is_known_prefix, sources_extend,
    step, task_effect, use_component_name,
    wildcard_expansion, Expanded, Import, IndexAst, IndexTask, LoadFileKind, Macro, MacroKind,
    MacroTable, SourceEntry, SourceLoader, Sources, Task, Visits, Worker, INDEX_DEPTH,
    TASK_BUDGET,
};

use vstd::prelude::*;

verus! {

/// How deep constant references may chain while evaluating.
pub const CONST_EVAL_DEPTH: u64 = 255;

/// Compile one source text against the given native registry, loader and
/// macro table: the text is registered, queued as the root file, and the
/// task queue is drained to completion. The returned worker holds the
/// populated unit, the deferred builds, and every accumulated error and
/// warning.
pub fn compile(
    source: &str,
    context: Context,
    loader: SourceLoader,
    macros: MacroTable,
) -> (r: Worker)
    ensures
        r.indexer.items.wf(),
        r.indexer.queue@.len() == 0 || r.budget == 0,
        r.indexer.sources.view_entries().len() >= 1,
        r.indexer.sources.view_entries()[0].text@ == source@,
        r.indexer.sources.view_entries()[0].path is None,
        r.context == context,
        r.macros == macros,
        // The returned worker is the end of a complete FIFO pass over an
        // initial state holding exactly the root file-load task, a full
        // budget and no errors.
        exists|pre: Worker, trace: Seq<Worker>|
            {
                &&& pre.budget == TASK_BUDGET
                &&& pre.errors@.len() == 0
                &&& pre.indexer.queue@.len() == 1
                &&& (pre.indexer.queue@.first() matches Task::LoadFile {
                    kind,
                    item,
                    source_id,
                } && kind is Root && item@.len() == 0 && source_id == 0)
                &&& pre.indexer.sources.view_entries().len() == 1
                &&& pre.indexer.sources.view_entries()[0].text@ == source@
                &&& #[trigger] complete_run(trace, pre, r)
            },
{
    let mut sources = Sources::new();
    let source_id = sources.insert(source.to_owned(), None);
    let mut queue: Vec<Task> = Vec::new();
    queue.push(
        Task::LoadFile { kind: LoadFileKind::Root, item: Item::new(), source_id },
    );
    let mut worker = Worker::new(queue, context, sources, loader, macros);
    let ghost pre_worker = worker;
    let ghost pre = worker.indexer.sources.view_entries();
    worker.run();
    proof {
        assert(worker.indexer.sources.view_entries()[0] == pre[0]);
        assert(pre_worker.indexer.queue@.first() == pre_worker.indexer.queue@[0]);
    }
    worker
}

/// Compile one source text with nothing registered, and evaluate the
/// body of its top-level `main` function as a constant expression. The
/// body must be a single expression; constants it refers to are
/// evaluated on demand.
pub fn eval_entry(source: &str) -> (r: Result<ConstValue, Errors>) {
    let worker = compile(source, Context::new(), SourceLoader::new(), MacroTable::new());
    if !worker.errors.is_empty() {
        return Err(worker.errors);
    }
    let mut main_item = Item::new();
    main_item.push_name("main");
    let entry = match worker.indexer.query.find_build(&main_item) {
        Some(entry) => entry,
        None => {
            let mut errors = Errors::new();
            errors.push(
                LoadError::compile(
                    0,
                    CompileError::new(
                        Span::empty(),
                        CompileErrorKind::MissingConst { item: main_item },
                    ),
                ),
            );
            return Err(errors);
        }
    };
    let body: &ast::Block = match &entry.build {
        Build::Function(f) => &f.ast.body,
        Build::InstanceFunction(f) => &f.ast.body,
    };
    if body.statements.len() != 1 {
        let mut errors = Errors::new();
        errors.push(
            LoadError::compile(
                0,
                CompileError::new(body.span, CompileErrorKind::UnsupportedConstExpr),
            ),
        );
        return Err(errors);
    }
    let expr: &ast::Expr = match &body.statements[0] {
        ast::Stmt::Expr(expr) => expr,
        ast::Stmt::Semi(expr, _) => expr,
        ast::Stmt::Item(_) => {
            let mut errors = Errors::new();
            errors.push(
                LoadError::compile(
                    0,
                    CompileError::new(body.span, CompileErrorKind::UnsupportedConstExpr),
                ),
            );
            return Err(errors);
        }
    };
    let root = Item::new();
    match eval_const_expr(&worker.indexer.query, &root, expr, CONST_EVAL_DEPTH) {
        Ok(value) => Ok(value),
        Err(error) => {
            let mut errors = Errors::new();
            errors.push(LoadError::compile(0, error));
            Err(errors)
        }
    }
}

} // verus!
