//! Value copies of syntax trees, so a declaration reached by reference
//! inside another body can be recorded whole: a nested constant keeps
//! its initializer and a nested function its declaration.

use vstd::prelude::*;

use crate::ast;

verus! {

broadcast use vstd::std_specs::vec::axiom_vec_index_decreases;

/// A value copy of an attribute list.
pub fn clone_attributes(v: &Vec<ast::Attribute>) -> (r: Vec<ast::Attribute>)
    ensures
        r@.len() == v@.len(),
{
    let mut out: Vec<ast::Attribute> = Vec::new();
    let mut i: usize = 0;
    while i < v.len()
        invariant
            i <= v@.len(),
            out@.len() == i as int,
        decreases v@.len() - i,
    {
        out.push(ast::Attribute { span: v[i].span });
        i = i + 1;
    }
    out
}

/// A value copy of an argument list.
pub fn clone_args(v: &Vec<ast::FnArg>) -> (r: Vec<ast::FnArg>)
    ensures
        r@ =~= v@,
{
    let mut out: Vec<ast::FnArg> = Vec::new();
    let mut i: usize = 0;
    while i < v.len()
        invariant
            i <= v@.len(),
            out@ =~= v@.take(i as int),
        decreases v@.len() - i,
    {
        let arg = match &v[i] {
            ast::FnArg::Self_(s) => ast::FnArg::Self_(*s),
            ast::FnArg::Ident(ident) => ast::FnArg::Ident(ident.clone()),
            ast::FnArg::Ignore(s) => ast::FnArg::Ignore(*s),
        };
        proof {
            assert(arg == v@[i as int]);
        }
        out.push(arg);
        proof {
            assert(out@ =~= v@.take(i + 1));
        }
        i = i + 1;
    }
    proof {
        assert(v@.take(v@.len() as int) =~= v@);
    }
    out
}

/// A value copy of an expression.
pub fn clone_expr(e: &ast::Expr) -> (r: ast::Expr)
    decreases *e,
{
    match e {
        ast::Expr::Self_(s) => ast::Expr::Self_(*s),
        ast::Expr::Path(p) => ast::Expr::Path(p.clone()),
        ast::Expr::ExprLet(l) => ast::Expr::ExprLet(clone_expr_let(l)),
        ast::Expr::ExprBlock(b) => ast::Expr::ExprBlock(clone_expr_block(b)),
        ast::Expr::ExprAsync(a) => ast::Expr::ExprAsync(
            ast::ExprAsync {
                attributes: clone_attributes(&a.attributes),
                block: clone_block(&a.block),
                span: a.span,
            },
        ),
        ast::Expr::ExprGroup(inner, s) => ast::Expr::ExprGroup(Box::new(clone_expr(inner)), *s),
        ast::Expr::ExprIf(i) => ast::Expr::ExprIf(clone_expr_if(i)),
        ast::Expr::ExprBinary(b) => ast::Expr::ExprBinary(
            ast::ExprBinary {
                lhs: Box::new(clone_expr(&b.lhs)),
                op: b.op,
                rhs: Box::new(clone_expr(&b.rhs)),
                span: b.span,
            },
        ),
        ast::Expr::ExprMatch(m) => ast::Expr::ExprMatch(clone_expr_match(m)),
        ast::Expr::ExprClosure(c) => ast::Expr::ExprClosure(
            ast::ExprClosure {
                async_: c.async_,
                args: clone_args(&c.args),
                body: Box::new(clone_expr(&c.body)),
                span: c.span,
            },
        ),
        ast::Expr::ExprWhile(w) => ast::Expr::ExprWhile(
            ast::ExprWhile {
                condition: clone_condition(&w.condition),
                body: clone_block(&w.body),
                span: w.span,
            },
        ),
        ast::Expr::ExprLoop(l) => ast::Expr::ExprLoop(
            ast::ExprLoop { body: clone_block(&l.body), span: l.span },
        ),
        ast::Expr::ExprFor(f) => ast::Expr::ExprFor(
            ast::ExprFor {
                label: match &f.label {
                    Some((label, colon)) => Some(
                        (label.clone(), ast::Colon { span: colon.span }),
                    ),
                    None => None,
                },
                for_: ast::For { span: f.for_.span },
                var: f.var.clone(),
                in_: ast::In { span: f.in_.span },
                iter: Box::new(clone_expr(&f.iter)),
                body: Box::new(clone_expr_block(&f.body)),
            },
        ),
        ast::Expr::ExprIndexSet(x) => ast::Expr::ExprIndexSet(
            ast::ExprIndexSet {
                target: Box::new(clone_expr(&x.target)),
                index: Box::new(clone_expr(&x.index)),
                value: Box::new(clone_expr(&x.value)),
                span: x.span,
            },
        ),
        ast::Expr::ExprFieldAccess(x) => ast::Expr::ExprFieldAccess(
            ast::ExprFieldAccess {
                expr: Box::new(clone_expr(&x.expr)),
                field: x.field.clone(),
                span: x.span,
            },
        ),
        ast::Expr::ExprUnary(x) => ast::Expr::ExprUnary(
            ast::ExprUnary { op: x.op, expr: Box::new(clone_expr(&x.expr)), span: x.span },
        ),
        ast::Expr::ExprIndexGet(x) => ast::Expr::ExprIndexGet(
            ast::ExprIndexGet {
                target: Box::new(clone_expr(&x.target)),
                index: Box::new(clone_expr(&x.index)),
                span: x.span,
            },
        ),
        ast::Expr::ExprBreak(x) => ast::Expr::ExprBreak(
            ast::ExprBreak {
                expr: match &x.expr {
                    Some(ast::ExprBreakValue::Expr(inner)) => Some(
                        ast::ExprBreakValue::Expr(Box::new(clone_expr(inner))),
                    ),
                    Some(ast::ExprBreakValue::Label(label)) => Some(
                        ast::ExprBreakValue::Label(label.clone()),
                    ),
                    None => None,
                },
                span: x.span,
            },
        ),
        ast::Expr::ExprYield(x) => ast::Expr::ExprYield(
            ast::ExprYield {
                expr: match &x.expr {
                    Some(inner) => Some(Box::new(clone_expr(inner))),
                    None => None,
                },
                span: x.span,
            },
        ),
        ast::Expr::ExprReturn(x) => ast::Expr::ExprReturn(
            ast::ExprReturn {
                expr: match &x.expr {
                    Some(inner) => Some(Box::new(clone_expr(inner))),
                    None => None,
                },
                span: x.span,
            },
        ),
        ast::Expr::ExprAwait(x) => ast::Expr::ExprAwait(
            ast::ExprAwait { expr: Box::new(clone_expr(&x.expr)), span: x.span },
        ),
        ast::Expr::ExprTry(x) => ast::Expr::ExprTry(
            ast::ExprTry { expr: Box::new(clone_expr(&x.expr)), span: x.span },
        ),
        ast::Expr::ExprSelect(x) => ast::Expr::ExprSelect(clone_expr_select(x)),
        ast::Expr::ExprCall(x) => ast::Expr::ExprCall(clone_expr_call(x)),
        ast::Expr::ExprLit(x) => ast::Expr::ExprLit(clone_expr_lit(x)),
        ast::Expr::MacroCall(m) => ast::Expr::MacroCall(m.clone()),
    }
}

/// A value copy of a `let` binding.
fn clone_expr_let(l: &ast::ExprLet) -> (r: ast::ExprLet)
    decreases *l,
{
    ast::ExprLet {
        pat: clone_pat(&l.pat),
        expr: Box::new(clone_expr(&l.expr)),
        span: l.span,
    }
}

/// A value copy of a block expression.
fn clone_expr_block(b: &ast::ExprBlock) -> (r: ast::ExprBlock)
    decreases *b,
{
    ast::ExprBlock { attributes: clone_attributes(&b.attributes), block: clone_block(&b.block) }
}

/// A value copy of a block.
pub fn clone_block(b: &ast::Block) -> (r: ast::Block)
    decreases *b,
{
    let mut statements: Vec<ast::Stmt> = Vec::new();
    let mut i: usize = 0;
    while i < b.statements.len()
        invariant
            i <= b.statements@.len(),
            decreases_to!(*b => b.statements),
        decreases b.statements@.len() - i,
    {
        proof {
            assert(decreases_to!(b.statements => b.statements[i as int]));
        }
        let stmt = match &b.statements[i] {
            ast::Stmt::Item(item) => ast::Stmt::Item(clone_item(item)),
            ast::Stmt::Expr(expr) => ast::Stmt::Expr(clone_expr(expr)),
            ast::Stmt::Semi(expr, s) => ast::Stmt::Semi(clone_expr(expr), *s),
        };
        statements.push(stmt);
        i = i + 1;
    }
    ast::Block { statements, span: b.span }
}

/// A value copy of a condition.
fn clone_condition(c: &ast::Condition) -> (r: ast::Condition)
    decreases *c,
{
    match c {
        ast::Condition::Expr(e) => ast::Condition::Expr(Box::new(clone_expr(e))),
        ast::Condition::ExprLet(l) => ast::Condition::ExprLet(Box::new(clone_expr_let(l))),
    }
}

/// A value copy of an `if` expression.
fn clone_expr_if(x: &ast::ExprIf) -> (r: ast::ExprIf)
    decreases *x,
{
    let mut expr_else_ifs: Vec<ast::ExprElseIf> = Vec::new();
    let mut i: usize = 0;
    while i < x.expr_else_ifs.len()
        invariant
            i <= x.expr_else_ifs@.len(),
            decreases_to!(*x => x.expr_else_ifs),
        decreases x.expr_else_ifs@.len() - i,
    {
        proof {
            assert(decreases_to!(x.expr_else_ifs => x.expr_else_ifs[i as int]));
        }
        let arm = &x.expr_else_ifs[i];
        expr_else_ifs.push(
            ast::ExprElseIf {
                condition: clone_condition(&arm.condition),
                block: clone_block(&arm.block),
            },
        );
        i = i + 1;
    }
    ast::ExprIf {
        condition: clone_condition(&x.condition),
        block: clone_block(&x.block),
        expr_else_ifs,
        expr_else: match &x.expr_else {
            Some(b) => Some(clone_block(b)),
            None => None,
        },
        span: x.span,
    }
}

/// A value copy of a `match` expression.
fn clone_expr_match(x: &ast::ExprMatch) -> (r: ast::ExprMatch)
    decreases *x,
{
    let mut branches: Vec<ast::MatchBranch> = Vec::new();
    let mut i: usize = 0;
    while i < x.branches.len()
        invariant
            i <= x.branches@.len(),
            decreases_to!(*x => x.branches),
        decreases x.branches@.len() - i,
    {
        proof {
            assert(decreases_to!(x.branches => x.branches[i as int]));
        }
        let branch = &x.branches[i];
        branches.push(
            ast::MatchBranch {
                pat: clone_pat(&branch.pat),
                condition: match &branch.condition {
                    Some(c) => Some(Box::new(clone_expr(c))),
                    None => None,
                },
                body: Box::new(clone_expr(&branch.body)),
            },
        );
        i = i + 1;
    }
    ast::ExprMatch { expr: Box::new(clone_expr(&x.expr)), branches, span: x.span }
}

/// A value copy of a `select` expression.
fn clone_expr_select(x: &ast::ExprSelect) -> (r: ast::ExprSelect)
    decreases *x,
{
    let mut branches: Vec<ast::SelectBranch> = Vec::new();
    let mut i: usize = 0;
    while i < x.branches.len()
        invariant
            i <= x.branches@.len(),
            decreases_to!(*x => x.branches),
        decreases x.branches@.len() - i,
    {
        proof {
            assert(decreases_to!(x.branches => x.branches[i as int]));
        }
        let branch = &x.branches[i];
        branches.push(
            ast::SelectBranch {
                pat: clone_pat(&branch.pat),
                expr: Box::new(clone_expr(&branch.expr)),
                body: Box::new(clone_expr(&branch.body)),
            },
        );
        i = i + 1;
    }
    ast::ExprSelect {
        branches,
        default_branch: match &x.default_branch {
            Some(b) => Some(Box::new(clone_expr(b))),
            None => None,
        },
        span: x.span,
    }
}

/// A value copy of a call expression.
fn clone_expr_call(x: &ast::ExprCall) -> (r: ast::ExprCall)
    decreases *x,
{
    let mut args: Vec<ast::Expr> = Vec::new();
    let mut i: usize = 0;
    while i < x.args.len()
        invariant
            i <= x.args@.len(),
            decreases_to!(*x => x.args),
        decreases x.args@.len() - i,
    {
        proof {
            assert(decreases_to!(x.args => x.args[i as int]));
        }
        args.push(clone_expr(&x.args[i]));
        i = i + 1;
    }
    ast::ExprCall { expr: Box::new(clone_expr(&x.expr)), args, span: x.span }
}

/// A value copy of a literal expression.
fn clone_expr_lit(x: &ast::ExprLit) -> (r: ast::ExprLit)
    decreases *x,
{
    let lit = match &x.lit {
        ast::Lit::Unit(s) => ast::Lit::Unit(*s),
        ast::Lit::Bool(b, s) => ast::Lit::Bool(*b, *s),
        ast::Lit::Byte(b, s) => ast::Lit::Byte(*b, *s),
        ast::Lit::Char(c, s) => ast::Lit::Char(*c, *s),
        ast::Lit::Number(n) => ast::Lit::Number(n.clone()),
        ast::Lit::Str(t) => ast::Lit::Str(t.clone()),
        ast::Lit::Template(t) => {
            proof {
                assert(decreases_to!(*x => x.lit));
                assert(decreases_to!(x.lit => *t));
            }
            ast::Lit::Template(clone_lit_template(t))
        }
        ast::Lit::Tuple(t) => {
            proof {
                assert(decreases_to!(*x => x.lit));
                assert(decreases_to!(x.lit => *t));
                assert(decreases_to!(*t => t.items));
            }
            ast::Lit::Tuple(
                ast::LitTuple { items: clone_exprs(&t.items), span: t.span },
            )
        }
        ast::Lit::Vec(t) => {
            proof {
                assert(decreases_to!(*x => x.lit));
                assert(decreases_to!(x.lit => *t));
                assert(decreases_to!(*t => t.items));
            }
            ast::Lit::Vec(ast::LitVec { items: clone_exprs(&t.items), span: t.span })
        }
        ast::Lit::Object(t) => {
            proof {
                assert(decreases_to!(*x => x.lit));
                assert(decreases_to!(x.lit => *t));
            }
            ast::Lit::Object(clone_lit_object(t))
        }
    };
    ast::ExprLit { attributes: clone_attributes(&x.attributes), lit, span: x.span }
}

/// A value copy of a list of expressions.
fn clone_exprs(items: &Vec<ast::Expr>) -> (r: Vec<ast::Expr>)
    decreases *items,
{
    let mut out: Vec<ast::Expr> = Vec::new();
    let mut i: usize = 0;
    while i < items.len()
        invariant
            i <= items@.len(),
        decreases items@.len() - i,
    {
        proof {
            assert(decreases_to!(*items => items[i as int]));
        }
        out.push(clone_expr(&items[i]));
        i = i + 1;
    }
    out
}

/// A value copy of a template literal.
fn clone_lit_template(t: &ast::LitTemplate) -> (r: ast::LitTemplate)
    decreases *t,
{
    let mut components: Vec<ast::TemplateComponent> = Vec::new();
    let mut i: usize = 0;
    while i < t.components.len()
        invariant
            i <= t.components@.len(),
            decreases_to!(*t => t.components),
        decreases t.components@.len() - i,
    {
        proof {
            assert(decreases_to!(t.components => t.components[i as int]));
        }
        let component = match &t.components[i] {
            ast::TemplateComponent::String(text) => ast::TemplateComponent::String(text.clone()),
            ast::TemplateComponent::Expr(inner) => ast::TemplateComponent::Expr(
                Box::new(clone_expr(inner)),
            ),
        };
        components.push(component);
        i = i + 1;
    }
    ast::LitTemplate { components, span: t.span }
}

/// A value copy of an object literal.
fn clone_lit_object(t: &ast::LitObject) -> (r: ast::LitObject)
    decreases *t,
{
    let mut assignments: Vec<ast::ObjectAssign> = Vec::new();
    let mut i: usize = 0;
    while i < t.assignments.len()
        invariant
            i <= t.assignments@.len(),
            decreases_to!(*t => t.assignments),
        decreases t.assignments@.len() - i,
    {
        proof {
            assert(decreases_to!(t.assignments => t.assignments[i as int]));
        }
        let assign = &t.assignments[i];
        assignments.push(
            ast::ObjectAssign {
                key: assign.key.clone(),
                assign: match &assign.assign {
                    Some(inner) => Some(Box::new(clone_expr(inner))),
                    None => None,
                },
            },
        );
        i = i + 1;
    }
    ast::LitObject { assignments, span: t.span }
}

/// A value copy of a pattern.
pub fn clone_pat(p: &ast::Pat) -> (r: ast::Pat)
    decreases *p,
{
    match p {
        ast::Pat::PatPath(path) => ast::Pat::PatPath(path.clone()),
        ast::Pat::PatIgnore(s) => ast::Pat::PatIgnore(*s),
        ast::Pat::PatUnit(s) => ast::Pat::PatUnit(*s),
        ast::Pat::PatNumber(n) => ast::Pat::PatNumber(n.clone()),
        ast::Pat::PatString(t) => ast::Pat::PatString(t.clone()),
        ast::Pat::PatByte(b, s) => ast::Pat::PatByte(*b, *s),
        ast::Pat::PatChar(c, s) => ast::Pat::PatChar(*c, *s),
        ast::Pat::PatTuple(t) => {
            let mut items: Vec<ast::Pat> = Vec::new();
            let mut i: usize = 0;
            while i < t.items.len()
                invariant
                    i <= t.items@.len(),
                    (*p) matches ast::Pat::PatTuple(tt) && tt == *t,
                    decreases_to!(*p => *t),
                decreases t.items@.len() - i,
            {
                proof {
                    assert(decreases_to!(*t => t.items));
                    assert(decreases_to!(t.items => t.items[i as int]));
                }
                items.push(clone_pat(&t.items[i]));
                i = i + 1;
            }
            ast::Pat::PatTuple(ast::PatTuple { items, span: t.span })
        }
        ast::Pat::PatVec(t) => {
            let mut items: Vec<ast::Pat> = Vec::new();
            let mut i: usize = 0;
            while i < t.items.len()
                invariant
                    i <= t.items@.len(),
                    (*p) matches ast::Pat::PatVec(tt) && tt == *t,
                    decreases_to!(*p => *t),
                decreases t.items@.len() - i,
            {
                proof {
                    assert(decreases_to!(*t => t.items));
                    assert(decreases_to!(t.items => t.items[i as int]));
                }
                items.push(clone_pat(&t.items[i]));
                i = i + 1;
            }
            ast::Pat::PatVec(ast::PatVec { items, span: t.span })
        }
        ast::Pat::PatObject(t) => {
            let mut fields: Vec<ast::PatObjectField> = Vec::new();
            let mut i: usize = 0;
            while i < t.fields.len()
                invariant
                    i <= t.fields@.len(),
                    (*p) matches ast::Pat::PatObject(tt) && tt == *t,
                    decreases_to!(*p => *t),
                decreases t.fields@.len() - i,
            {
                proof {
                    assert(decreases_to!(*t => t.fields));
                    assert(decreases_to!(t.fields => t.fields[i as int]));
                }
                let field = &t.fields[i];
                fields.push(
                    ast::PatObjectField {
                        key: field.key.clone(),
                        binding: match &field.binding {
                            Some(inner) => Some(Box::new(clone_pat(inner))),
                            None => None,
                        },
                    },
                );
                i = i + 1;
            }
            ast::Pat::PatObject(ast::PatObject { fields, span: t.span })
        }
    }
}

/// A value copy of a declaration.
pub fn clone_item(item: &ast::Item) -> (r: ast::Item)
    decreases *item,
{
    match item {
        ast::Item::ItemUse(u) => ast::Item::ItemUse(u.clone()),
        ast::Item::ItemEnum(e) => {
            let mut variants: Vec<ast::ItemVariant> = Vec::new();
            let mut i: usize = 0;
            while i < e.variants.len()
                invariant
                    i <= e.variants@.len(),
                decreases e.variants@.len() - i,
            {
                let v = &e.variants[i];
                variants.push(
                    ast::ItemVariant {
                        attributes: v.attributes.clone(),
                        name: v.name.clone(),
                        body: v.body.clone(),
                    },
                );
                i = i + 1;
            }
            ast::Item::ItemEnum(
                ast::ItemEnum {
                    attributes: clone_attributes(&e.attributes),
                    name: e.name.clone(),
                    variants,
                    span: e.span,
                },
            )
        }
        ast::Item::ItemStruct(st) => ast::Item::ItemStruct(
            ast::ItemStruct {
                attributes: clone_attributes(&st.attributes),
                ident: st.ident.clone(),
                body: st.body.clone(),
                span: st.span,
            },
        ),
        ast::Item::ItemFn(f) => ast::Item::ItemFn(Box::new(clone_item_fn(f))),
        ast::Item::ItemImpl(im) => {
            let mut functions: Vec<ast::ItemFn> = Vec::new();
            let mut i: usize = 0;
            while i < im.functions.len()
                invariant
                    i <= im.functions@.len(),
                    (*item) matches ast::Item::ItemImpl(ii) && ii == *im,
                    decreases_to!(*item => *im),
                decreases im.functions@.len() - i,
            {
                proof {
                    assert(decreases_to!(*im => im.functions));
                    assert(decreases_to!(im.functions => im.functions[i as int]));
                }
                functions.push(clone_item_fn(&im.functions[i]));
                i = i + 1;
            }
            ast::Item::ItemImpl(
                ast::ItemImpl {
                    attributes: clone_attributes(&im.attributes),
                    path: im.path.clone(),
                    functions,
                    span: im.span,
                },
            )
        }
        ast::Item::ItemMod(m) => ast::Item::ItemMod(
            ast::ItemMod {
                attributes: clone_attributes(&m.attributes),
                name: m.name.clone(),
                body: match &m.body {
                    ast::ItemModBody::EmptyBody(s) => ast::ItemModBody::EmptyBody(*s),
                    ast::ItemModBody::InlineBody(file) => ast::ItemModBody::InlineBody(
                        Box::new(clone_file(file)),
                    ),
                },
                span: m.span,
            },
        ),
        ast::Item::ItemConst(c) => ast::Item::ItemConst(
            ast::ItemConst {
                attributes: clone_attributes(&c.attributes),
                name: c.name.clone(),
                expr: Box::new(clone_expr(&c.expr)),
                span: c.span,
            },
        ),
        ast::Item::MacroCall(m) => ast::Item::MacroCall(m.clone()),
    }
}

/// A value copy of a function declaration.
pub fn clone_item_fn(f: &ast::ItemFn) -> (r: ast::ItemFn)
    decreases *f,
{
    ast::ItemFn {
        attributes: clone_attributes(&f.attributes),
        async_: f.async_,
        name: f.name.clone(),
        args: clone_args(&f.args),
        body: clone_block(&f.body),
        span: f.span,
    }
}

/// A value copy of a file.
pub fn clone_file(file: &ast::File) -> (r: ast::File)
    decreases *file,
{
    let mut items: Vec<ast::FileItem> = Vec::new();
    let mut i: usize = 0;
    while i < file.items.len()
        invariant
            i <= file.items@.len(),
            decreases_to!(*file => file.items),
        decreases file.items@.len() - i,
    {
        proof {
            assert(decreases_to!(file.items => file.items[i as int]));
        }
        let fi = &file.items[i];
        items.push(ast::FileItem { item: clone_item(&fi.item), semi: fi.semi });
        i = i + 1;
    }
    ast::File { attributes: clone_attributes(&file.attributes), items }
}

} // verus!
