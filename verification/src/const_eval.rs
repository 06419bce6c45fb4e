//! On-demand evaluation of constant expressions against the indexed
//! declarations: literals, integer and boolean arithmetic, comparisons,
//! and templates. Constants may refer to constants declared later in the
//! file; references resolve through the symbol table, walking outward
//! from the scope of the referring constant, with a depth budget against
//! cycles.
//!
//! Floating point constants are carried as their source spelling and can
//! be interpolated into templates, but the core does not compute with
//! them.

use vstd::prelude::*;
use vstd::string::StringSliceAdditionalSpecFns;

use crate::ast;
use crate::compile_meta::{
    CompileMeta, CompileMetaCapture, CompileMetaKind, CompileMetaStruct,
    CompileMetaTuple, CompileSource, ConstValue, Type, TypeHash,
};
use crate::errors::{CompileError, CompileErrorKind};
use crate::item::Item;
use crate::ast::DeclBody;
use crate::query::{Indexed, Query};
use crate::span::Span;
use crate::text::i64_to_string;

verus! {

/// Read a decimal, binary (`0b`) or hexadecimal (`0x`) integer spelling.
fn parse_i64(text: &str) -> (r: Option<i64>) {
    if !text.is_ascii() {
        return None;
    }
    let n = text.unicode_len();
    if n == 0 {
        return None;
    }
    let mut base: u64 = 10;
    let mut i: usize = 0;
    if n >= 2 && text.get_ascii(0) == 48 {
        let marker = text.get_ascii(1);
        if marker == 98 {
            base = 2;
            i = 2;
        } else if marker == 120 {
            base = 16;
            i = 2;
        }
    }
    if i >= n {
        return None;
    }
    let mut acc: i64 = 0;
    while i < n
        invariant
            text.is_ascii(),
            n == text@.len(),
            i <= n,
            2 <= base <= 16,
        decreases n - i,
    {
        let b = text.get_ascii(i);
        let digit: u64 = if b >= 48 && b <= 57 {
            (b - 48) as u64
        } else if b >= 97 && b <= 102 {
            (b - 97) as u64 + 10
        } else if b == 95 {
            i = i + 1;
            continue;
        } else {
            return None;
        };
        if digit >= base {
            return None;
        }
        let scaled = match acc.checked_mul(base as i64) {
            Some(v) => v,
            None => {
                return None;
            }
        };
        acc = match scaled.checked_add(digit as i64) {
            Some(v) => v,
            None => {
                return None;
            }
        };
        i = i + 1;
    }
    Some(acc)
}

/// Append the textual form of a constant value, as templates interpolate
/// it: integers in decimal, floats as their spelling, booleans as
/// `true` or `false`, strings as their text.
fn push_display(out: &mut String, value: &ConstValue) -> (r: Result<(), CompileError>) {
    match value {
        ConstValue::Integer(n) => {
            let text = i64_to_string(*n);
            out.append(text.as_str());
            Ok(())
        }
        ConstValue::Float(text) => {
            out.append(text.as_str());
            Ok(())
        }
        ConstValue::Str(text) => {
            out.append(text.as_str());
            Ok(())
        }
        ConstValue::Bool(b) => {
            if *b {
                out.append("true");
            } else {
                out.append("false");
            }
            Ok(())
        }
        ConstValue::Unit => {
            out.append("()");
            Ok(())
        }
        _ => Err(
            CompileError::new(Span::empty(), CompileErrorKind::UnsupportedConstExpr),
        ),
    }
}

/// Evaluate one constant expression in the scope `base`: the item path
/// of the module the expression stands in. `fuel` bounds reference
/// chains, so cyclic constants report an error instead of looping.
pub fn eval_const_expr(query: &Query, base: &Item, expr: &ast::Expr, fuel: u64) -> (r: Result<
    ConstValue,
    CompileError,
>)
    ensures
        ((*expr) matches ast::Expr::ExprLit(l) ==> {
            &&& (l.lit matches ast::Lit::Unit(_) ==> r == Ok::<ConstValue, CompileError>(
                ConstValue::Unit,
            ))
            &&& (l.lit matches ast::Lit::Bool(b, _) ==> r == Ok::<ConstValue, CompileError>(
                ConstValue::Bool(b),
            ))
            &&& (l.lit matches ast::Lit::Byte(b, _) ==> r == Ok::<ConstValue, CompileError>(
                ConstValue::Byte(b),
            ))
            &&& (l.lit matches ast::Lit::Char(c, _) ==> r == Ok::<ConstValue, CompileError>(
                ConstValue::Char(c),
            ))
            &&& (l.lit matches ast::Lit::Str(t) ==> (r matches Ok(v) && v matches
                ConstValue::Str(text) && text@ == t.text@))
            &&& (l.lit matches ast::Lit::Number(n) ==> {
                &&& (n.is_float ==> (r matches Ok(v) && v matches ConstValue::Float(text)
                    && text@ == n.text@))
                &&& (!n.is_float ==> ((r matches Ok(v) ==> v is Integer) && (r matches Err(e)
                    ==> e.kind is BadNumberLiteral)))
            })
        }),
    decreases fuel, *expr,
{
    let span = expr.span();
    match expr {
        ast::Expr::ExprLit(expr_lit) => {
            match &expr_lit.lit {
                ast::Lit::Unit(_) => Ok(ConstValue::Unit),
                ast::Lit::Bool(b, _) => Ok(ConstValue::Bool(*b)),
                ast::Lit::Byte(b, _) => Ok(ConstValue::Byte(*b)),
                ast::Lit::Char(c, _) => Ok(ConstValue::Char(*c)),
                ast::Lit::Str(lit) => Ok(ConstValue::Str(lit.text.clone())),
                ast::Lit::Number(lit) => {
                    if lit.is_float {
                        Ok(ConstValue::Float(lit.text.clone()))
                    } else {
                        match parse_i64(lit.text.as_str()) {
                            Some(v) => Ok(ConstValue::Integer(v)),
                            None => Err(
                                CompileError::new(
                                    lit.span,
                                    CompileErrorKind::BadNumberLiteral,
                                ),
                            ),
                        }
                    }
                }
                ast::Lit::Template(template) => {
                    let mut out = String::new();
                    let mut i: usize = 0;
                    while i < template.components.len()
                        invariant
                            i <= template.components@.len(),
                            (*expr) matches ast::Expr::ExprLit(el) && el.lit is Template,
                            decreases_to!(*expr => expr_lit.lit),
                            decreases_to!(expr_lit.lit => *template),
                        decreases template.components@.len() - i,
                    {
                        proof {
                            assert(decreases_to!(*template => template.components));
                            assert(decreases_to!(template.components => template.components[
                                i as int
                            ]));
                        }
                        match &template.components[i] {
                            ast::TemplateComponent::String(text) => {
                                out.append(text.as_str());
                            }
                            ast::TemplateComponent::Expr(inner) => {
                                let value = match eval_const_expr(query, base, inner, fuel) {
                                    Ok(value) => value,
                                    Err(e) => {
                                        return Err(e);
                                    }
                                };
                                match push_display(&mut out, &value) {
                                    Ok(_) => {}
                                    Err(e) => {
                                        return Err(e);
                                    }
                                }
                            }
                        }
                        i = i + 1;
                    }
                    Ok(ConstValue::Str(out))
                }
                _ => Err(CompileError::new(span, CompileErrorKind::UnsupportedConstExpr)),
            }
        }
        ast::Expr::ExprGroup(inner, _) => eval_const_expr(query, base, inner, fuel),
        ast::Expr::ExprBlock(expr_block) => {
            if expr_block.block.statements.len() == 1 {
                proof {
                    assert(decreases_to!(*expr => *expr_block));
                    assert(decreases_to!(*expr_block => expr_block.block));
                    assert(decreases_to!(expr_block.block => expr_block.block.statements));
                    assert(decreases_to!(expr_block.block.statements => expr_block.block.statements[
                        0
                    ]));
                }
                match &expr_block.block.statements[0] {
                    ast::Stmt::Expr(inner) => eval_const_expr(query, base, inner, fuel),
                    _ => Err(
                        CompileError::new(span, CompileErrorKind::UnsupportedConstExpr),
                    ),
                }
            } else {
                Err(CompileError::new(span, CompileErrorKind::UnsupportedConstExpr))
            }
        }
        ast::Expr::ExprUnary(unary) => {
            let inner = match eval_const_expr(query, base, &unary.expr, fuel) {
                Ok(v) => v,
                Err(e) => {
                    return Err(e);
                }
            };
            match (unary.op, inner) {
                (ast::UnaryOp::Neg, ConstValue::Integer(n)) => {
                    if n == i64::MIN {
                        Err(
                            CompileError::new(
                                span,
                                CompileErrorKind::ConstArithmeticOverflow,
                            ),
                        )
                    } else {
                        Ok(ConstValue::Integer(-n))
                    }
                }
                (ast::UnaryOp::Not, ConstValue::Bool(b)) => Ok(ConstValue::Bool(!b)),
                _ => Err(CompileError::new(span, CompileErrorKind::UnsupportedConstExpr)),
            }
        }
        ast::Expr::ExprBinary(binary) => {
            let lhs = match eval_const_expr(query, base, &binary.lhs, fuel) {
                Ok(v) => v,
                Err(e) => {
                    return Err(e);
                }
            };
            let rhs = match eval_const_expr(query, base, &binary.rhs, fuel) {
                Ok(v) => v,
                Err(e) => {
                    return Err(e);
                }
            };
            eval_binary(binary.op, lhs, rhs, span)
        }
        ast::Expr::Path(path) => {
            match path.try_as_ident() {
                Some(ident) => {
                    if fuel == 0 {
                        return Err(
                            CompileError::new(span, CompileErrorKind::ConstDepthExceeded),
                        );
                    }
                    match find_const(query, base, ident.ident.as_str()) {
                        Some((parent, inner)) => eval_const_expr(
                            query,
                            &parent,
                            inner,
                            fuel - 1,
                        ),
                        None => {
                            let mut missing = base.clone();
                            missing.push_name(ident.ident.as_str());
                            Err(
                                CompileError::new(
                                    span,
                                    CompileErrorKind::MissingConst { item: missing },
                                ),
                            )
                        }
                    }
                }
                None => Err(CompileError::new(span, CompileErrorKind::UnsupportedConstExpr)),
            }
        }
        _ => Err(CompileError::new(span, CompileErrorKind::UnsupportedConstExpr)),
    }
}

/// Whether two constant values are an integer pair, a boolean pair or a
/// string pair; anything else has no binary operators.
pub open spec fn binary_operands_supported(lhs: ConstValue, rhs: ConstValue) -> bool {
    ||| (lhs is Integer && rhs is Integer)
    ||| (lhs is Bool && rhs is Bool)
    ||| (lhs is Str && rhs is Str)
}

/// Apply a binary operator to two constant values: checked 64-bit
/// integer arithmetic, shifts and comparisons; boolean and string
/// equality; string concatenation. Overflow, a zero divisor and an
/// unsupported pairing each report their own error at `span`.
fn eval_binary(op: ast::BinOp, lhs: ConstValue, rhs: ConstValue, span: Span) -> (r: Result<
    ConstValue,
    CompileError,
>)
    ensures
        r matches Err(e) ==> e.span == span,
        !binary_operands_supported(lhs, rhs) ==> (r matches Err(e) && e.kind
            is UnsupportedConstExpr),
        lhs matches ConstValue::Integer(a) ==> rhs matches ConstValue::Integer(b) ==> {
            &&& (op is Add ==> (if a + b > i64::MAX || a + b < i64::MIN {
                r matches Err(e) && e.kind is ConstArithmeticOverflow
            } else {
                r == Ok::<ConstValue, CompileError>(ConstValue::Integer((a + b) as i64))
            }))
            &&& (op is Sub ==> (if a - b > i64::MAX || a - b < i64::MIN {
                r matches Err(e) && e.kind is ConstArithmeticOverflow
            } else {
                r == Ok::<ConstValue, CompileError>(ConstValue::Integer((a - b) as i64))
            }))
            &&& (op is Mul ==> (if a * b > i64::MAX || a * b < i64::MIN {
                r matches Err(e) && e.kind is ConstArithmeticOverflow
            } else {
                r == Ok::<ConstValue, CompileError>(ConstValue::Integer((a * b) as i64))
            }))
            &&& (op is Div ==> (if b == 0 {
                r matches Err(e) && e.kind is ConstDivisionByZero
            } else {
                match a.checked_div(b) {
                    Some(v) => r == Ok::<ConstValue, CompileError>(ConstValue::Integer(v)),
                    None => r matches Err(e) && e.kind is ConstArithmeticOverflow,
                }
            }))
            &&& (op is Shl ==> (if b < 0 || b >= 64 {
                r matches Err(e) && e.kind is ConstArithmeticOverflow
            } else {
                r matches Ok(v) && v is Integer
            }))
            &&& (op is Shr ==> (if b < 0 || b >= 64 {
                r matches Err(e) && e.kind is ConstArithmeticOverflow
            } else {
                r matches Ok(v) && v is Integer
            }))
            &&& (op is Lt ==> r == Ok::<ConstValue, CompileError>(ConstValue::Bool(a < b)))
            &&& (op is Le ==> r == Ok::<ConstValue, CompileError>(ConstValue::Bool(a <= b)))
            &&& (op is Gt ==> r == Ok::<ConstValue, CompileError>(ConstValue::Bool(a > b)))
            &&& (op is Ge ==> r == Ok::<ConstValue, CompileError>(ConstValue::Bool(a >= b)))
            &&& (op is EqEq ==> r == Ok::<ConstValue, CompileError>(ConstValue::Bool(a == b)))
            &&& (op is Neq ==> r == Ok::<ConstValue, CompileError>(ConstValue::Bool(a != b)))
        },
        lhs matches ConstValue::Bool(a) ==> rhs matches ConstValue::Bool(b) ==> {
            &&& (op is EqEq ==> r == Ok::<ConstValue, CompileError>(ConstValue::Bool(a == b)))
            &&& (op is Neq ==> r == Ok::<ConstValue, CompileError>(ConstValue::Bool(a != b)))
            &&& (!(op is EqEq || op is Neq) ==> (r matches Err(e) && e.kind
                is UnsupportedConstExpr))
        },
        lhs matches ConstValue::Str(a) ==> rhs matches ConstValue::Str(b) ==> {
            &&& (op is EqEq ==> r == Ok::<ConstValue, CompileError>(ConstValue::Bool(a@ == b@)))
            &&& (op is Neq ==> r == Ok::<ConstValue, CompileError>(ConstValue::Bool(a@ != b@)))
            &&& (op is Add ==> (r matches Ok(v) && v matches ConstValue::Str(t) && t@ == a@
                + b@))
            &&& (!(op is EqEq || op is Neq || op is Add) ==> (r matches Err(e) && e.kind
                is UnsupportedConstExpr))
        },
{
    match (lhs, rhs) {
        (ConstValue::Integer(a), ConstValue::Integer(b)) => {
            match op {
                ast::BinOp::Add => match a.checked_add(b) {
                    Some(v) => Ok(ConstValue::Integer(v)),
                    None => Err(
                        CompileError::new(span, CompileErrorKind::ConstArithmeticOverflow),
                    ),
                },
                ast::BinOp::Sub => match a.checked_sub(b) {
                    Some(v) => Ok(ConstValue::Integer(v)),
                    None => Err(
                        CompileError::new(span, CompileErrorKind::ConstArithmeticOverflow),
                    ),
                },
                ast::BinOp::Mul => match a.checked_mul(b) {
                    Some(v) => Ok(ConstValue::Integer(v)),
                    None => Err(
                        CompileError::new(span, CompileErrorKind::ConstArithmeticOverflow),
                    ),
                },
                ast::BinOp::Div => {
                    if b == 0 {
                        Err(CompileError::new(span, CompileErrorKind::ConstDivisionByZero))
                    } else {
                        match a.checked_div(b) {
                            Some(v) => Ok(ConstValue::Integer(v)),
                            None => Err(
                                CompileError::new(
                                    span,
                                    CompileErrorKind::ConstArithmeticOverflow,
                                ),
                            ),
                        }
                    }
                }
                ast::BinOp::Shl => {
                    if b < 0 || b >= 64 {
                        Err(
                            CompileError::new(
                                span,
                                CompileErrorKind::ConstArithmeticOverflow,
                            ),
                        )
                    } else {
                        Ok(ConstValue::Integer(a << (b as u32)))
                    }
                }
                ast::BinOp::Shr => {
                    if b < 0 || b >= 64 {
                        Err(
                            CompileError::new(
                                span,
                                CompileErrorKind::ConstArithmeticOverflow,
                            ),
                        )
                    } else {
                        Ok(ConstValue::Integer(a >> (b as u32)))
                    }
                }
                ast::BinOp::Lt => Ok(ConstValue::Bool(a < b)),
                ast::BinOp::Le => Ok(ConstValue::Bool(a <= b)),
                ast::BinOp::Gt => Ok(ConstValue::Bool(a > b)),
                ast::BinOp::Ge => Ok(ConstValue::Bool(a >= b)),
                ast::BinOp::EqEq => Ok(ConstValue::Bool(a == b)),
                ast::BinOp::Neq => Ok(ConstValue::Bool(a != b)),
            }
        }
        (ConstValue::Bool(a), ConstValue::Bool(b)) => {
            match op {
                ast::BinOp::EqEq => Ok(ConstValue::Bool(a == b)),
                ast::BinOp::Neq => Ok(ConstValue::Bool(a != b)),
                _ => Err(CompileError::new(span, CompileErrorKind::UnsupportedConstExpr)),
            }
        }
        (ConstValue::Str(a), ConstValue::Str(b)) => {
            match op {
                ast::BinOp::EqEq => Ok(ConstValue::Bool(String::eq(&a, &b))),
                ast::BinOp::Neq => Ok(ConstValue::Bool(!String::eq(&a, &b))),
                ast::BinOp::Add => Ok(ConstValue::Str(a.concat(b.as_str()))),
                _ => Err(CompileError::new(span, CompileErrorKind::UnsupportedConstExpr)),
            }
        }
        _ => Err(CompileError::new(span, CompileErrorKind::UnsupportedConstExpr)),
    }
}

/// Resolve a constant reference by name: try the scope the reference
/// stands in, then each enclosing scope outward to the root. Yields the
/// scope the constant was declared in and its initializer.
fn find_const<'a>(query: &'a Query, base: &Item, name: &str) -> (r: Option<
    (Item, &'a ast::Expr),
>) {
    let mut k = base.len();
    loop
        invariant
            k <= base@.len(),
        decreases k,
    {
        let mut candidate = Item::new();
        let mut j: usize = 0;
        while j < k
            invariant
                j <= k,
                k <= base@.len(),
            decreases k - j,
        {
            candidate.push(base.get(j).clone());
            j = j + 1;
        }
        let mut parent = candidate.clone();
        candidate.push_name(name);
        match query.indexed_entry(&candidate) {
            Some(entry) => {
                match &entry.indexed {
                    Indexed::Const { expr } => {
                        return Some((parent, expr));
                    }
                    _ => {
                        return None;
                    }
                }
            }
            None => {}
        }
        if k == 0 {
            return None;
        }
        k = k - 1;
    }
}

/// The distinct field names of a struct or variant body, each once even
/// when a declaration repeats a name.
fn field_names(body: &DeclBody) -> (r: Vec<String>)
    ensures
        forall|i1: int, i2: int| 0 <= i1 < i2 < r@.len() ==> r@[i1]@ != r@[i2]@,
{
    let fields: &Vec<crate::ast::Field> = match body {
        DeclBody::Unit => {
            return Vec::new();
        }
        DeclBody::Tuple(fields) => fields,
        DeclBody::Record(fields) => fields,
    };
    let mut names: Vec<String> = Vec::new();
    let mut i: usize = 0;
    while i < fields.len()
        invariant
            i <= fields@.len(),
            forall|i1: int, i2: int| 0 <= i1 < i2 < names@.len() ==> names@[i1]@ != names@[i2]@,
        decreases fields@.len() - i,
    {
        let mut seen = false;
        let mut j: usize = 0;
        while j < names.len()
            invariant
                j <= names@.len(),
                i < fields@.len(),
                forall|i1: int, i2: int|
                    0 <= i1 < i2 < names@.len() ==> names@[i1]@ != names@[i2]@,
                !seen ==> forall|k: int|
                    0 <= k < j ==> #[trigger] names@[k]@ != fields@[i as int].name.ident@,
                seen ==> names@.len() > 0,
            decreases names@.len() - j,
        {
            if String::eq(&names[j], &fields[i].name.ident) {
                seen = true;
                proof {
                    assert(names@.len() > 0);
                }
            }
            if seen {
                j = names.len();
            } else {
                j = j + 1;
            }
        }
        if !seen {
            let ghost prev = names@;
            names.push(fields[i].name.ident.clone());
            proof {
                assert forall|i1: int, i2: int|
                    0 <= i1 < i2 < names@.len() implies names@[i1]@ != names@[i2]@ by {
                    if i2 == prev.len() {
                        assert(names@[i1]@ == prev[i1]@);
                        assert(names@[i2]@ == fields@[i as int].name.ident@);
                    }
                }
            }
        }
        i = i + 1;
    }
    names
}

/// A capture list as metadata records.
fn capture_meta(captures: &Vec<String>) -> (r: Vec<CompileMetaCapture>) {
    let mut out: Vec<CompileMetaCapture> = Vec::new();
    let mut i: usize = 0;
    while i < captures.len()
        invariant
            i <= captures@.len(),
        decreases captures@.len() - i,
    {
        out.push(CompileMetaCapture { ident: captures[i].clone() });
        i = i + 1;
    }
    out
}

/// Convert the indexed declaration at `item` into compile metadata of
/// the unit, evaluating a constant's initializer on demand. Once the
/// call returns successfully the metadata is in place and visible to
/// every later lookup; a second call finds it already present. Fails
/// when `item` has no indexed declaration, when a constant cannot be
/// evaluated, or on a conflicting insertion.
pub fn query_meta(query: &mut Query, item: &Item, fuel: u64) -> (r: Result<(), CompileError>)
    ensures
        r is Ok ==> final(query).unit.keys_view().contains(item@),
        old(query).unit.keys_view().contains(item@) ==> r is Ok && final(query).unit == old(
            query,
        ).unit,
        (!old(query).unit.keys_view().contains(item@) && !old(query).indexed_keys().contains(
            item@,
        )) ==> (r is Err && (r->Err_0.kind matches CompileErrorKind::MissingConst { item: it }
            && it@ == item@)),
        (!old(query).unit.keys_view().contains(item@) && r is Ok) ==> {
            let m = final(query).unit.metas_view().last();
            &&& final(query).unit.metas_view() =~= old(query).unit.metas_view().push(m)
            &&& crate::compile_meta::kind_item(m.kind) == item@
        },
{
    if query.unit.contains_item(item) {
        return Ok(());
    }
    let entry = match query.indexed_entry(item) {
        Some(entry) => entry,
        None => {
            return Err(
                CompileError::new(
                    Span::empty(),
                    CompileErrorKind::MissingConst { item: item.clone() },
                ),
            );
        }
    };
    let span = entry.span;
    let source_id = entry.source_id;
    let type_of = Type::of_hash(TypeHash::type_hash(item));
    let kind: CompileMetaKind = match &entry.indexed {
        Indexed::Enum => CompileMetaKind::Enum { type_of, item: item.clone() },
        Indexed::Struct { body } => {
            match body {
                DeclBody::Record(_) => CompileMetaKind::Struct {
                    type_of,
                    object: CompileMetaStruct {
                        item: item.clone(),
                        fields: Some(field_names(body)),
                    },
                },
                _ => CompileMetaKind::Tuple {
                    type_of,
                    tuple: CompileMetaTuple {
                        item: item.clone(),
                        args: body.field_count(),
                        hash: TypeHash::type_hash(item),
                    },
                },
            }
        }
        Indexed::Variant { enum_item, body } => {
            match body {
                DeclBody::Record(_) => CompileMetaKind::ObjectVariant {
                    type_of,
                    enum_item: enum_item.clone(),
                    object: CompileMetaStruct {
                        item: item.clone(),
                        fields: Some(field_names(body)),
                    },
                },
                _ => CompileMetaKind::TupleVariant {
                    type_of,
                    enum_item: enum_item.clone(),
                    tuple: CompileMetaTuple {
                        item: item.clone(),
                        args: body.field_count(),
                        hash: TypeHash::type_hash(item),
                    },
                },
            }
        }
        Indexed::Function { .. } => CompileMetaKind::Function { type_of, item: item.clone() },
        Indexed::Closure { captures, .. } => CompileMetaKind::Closure {
            type_of,
            item: item.clone(),
            captures: capture_meta(captures),
        },
        Indexed::AsyncBlock { captures, .. } => CompileMetaKind::AsyncBlock {
            type_of,
            item: item.clone(),
            captures: capture_meta(captures),
        },
        Indexed::Const { expr } => {
            let mut parent = Item::new();
            let len = item.len();
            let stop: usize = if len > 0 {
                len - 1
            } else {
                0
            };
            let mut j: usize = 0;
            while j < stop
                invariant
                    len == item@.len(),
                    stop <= len,
                    j <= stop,
                decreases stop - j,
            {
                parent.push(item.get(j).clone());
                j = j + 1;
            }
            let const_value = match eval_const_expr(query, &parent, expr, fuel) {
                Ok(value) => value,
                Err(e) => {
                    return Err(e);
                }
            };
            CompileMetaKind::Const { const_value, item: item.clone() }
        }
    };
    let meta = CompileMeta {
        kind,
        source: Some(CompileSource { span, path: None, source_id }),
    };
    let r = query.unit.insert_meta(meta, span);
    match r {
        Ok(_) => {
            if query.unit.contains_item(item) {
                Ok(())
            } else {
                Err(
                    CompileError::internal(
                        span,
                        "inserted metadata must be visible under its own path",
                    ),
                )
            }
        }
        Err(e) => Err(e),
    }
}

} // verus!
