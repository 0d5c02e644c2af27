//! Lowering of Snail statements and programs into Python statements and
//! modules, against the models in `lower`.
use vstd::prelude::*;
use crate::ast::{
    AssignTarget, ExceptHandler, Expr, ImportItem, Parameter, Program, SourceSpan, Stmt, WithItem,
};
use crate::lower::{
    LowerError, block_fault, block_span_or, elifs_fault, fault_message, first_fault,
    handler_fault, handlers_fault, if_chain_spec, import_name_spec, is_braces_item,
    is_future_module, lower_block_spec, lower_expr, lower_expr_spec, lower_handler_spec,
    lower_opt_block_spec, lower_opt_expr_spec, lower_param_spec, lower_stmt_spec,
    lower_target_spec, lower_with_item_spec, opt_block_fault, opt_expr_fault, param_fault,
    params_fault, reportable, spec_expr_span, spec_stmt_span, stmt_fault, target_fault,
    targets_fault, with_item_fault, with_items_fault, without_braces, expr_fault, if_tests_spec,
    if_bodies_spec, if_branches_fault,
};
use crate::pyast::{
    PyExceptHandler, PyExpr, PyImportName, PyModule, PyParameter, PyStmt, PyWithItem,
    SpecPyModule, SpecPyStmt, strings_view, view_exprs, view_handler, view_import_name,
    view_opt_expr, view_parameter, view_stmts, view_blocks, view_with_item, opt_string_view,
};
use crate::text::str_eq;

verus! {

/// The span of a Python expression.
pub fn expr_span(e: &PyExpr) -> (r: SourceSpan)
    ensures
        r == spec_expr_span(e@),
{
    match e {
        PyExpr::Name { span, .. } => *span,
        PyExpr::Number { span, .. } => *span,
        PyExpr::String { span, .. } => *span,
        PyExpr::FString { span, .. } => *span,
        PyExpr::Bool { span, .. } => *span,
        PyExpr::NoneLiteral { span } => *span,
        PyExpr::Unary { span, .. } => *span,
        PyExpr::Binary { span, .. } => *span,
        PyExpr::Compare { span, .. } => *span,
        PyExpr::IfExpr { span, .. } => *span,
        PyExpr::Lambda { span, .. } => *span,
        PyExpr::Call { span, .. } => *span,
        PyExpr::Attribute { span, .. } => *span,
        PyExpr::Index { span, .. } => *span,
        PyExpr::Paren { span, .. } => *span,
        PyExpr::List { span, .. } => *span,
        PyExpr::Tuple { span, .. } => *span,
        PyExpr::Dict { span, .. } => *span,
        PyExpr::SetLiteral { span, .. } => *span,
        PyExpr::ListComp { span, .. } => *span,
        PyExpr::DictComp { span, .. } => *span,
        PyExpr::Slice { span, .. } => *span,
    }
}

/// The span of a Python statement.
pub fn stmt_span(s: &PyStmt) -> (r: SourceSpan)
    ensures
        r == spec_stmt_span(s@),
{
    match s {
        PyStmt::If { span, .. } => *span,
        PyStmt::While { span, .. } => *span,
        PyStmt::For { span, .. } => *span,
        PyStmt::FunctionDef { span, .. } => *span,
        PyStmt::ClassDef { span, .. } => *span,
        PyStmt::Try { span, .. } => *span,
        PyStmt::With { span, .. } => *span,
        PyStmt::Return { span, .. } => *span,
        PyStmt::Raise { span, .. } => *span,
        PyStmt::Assert { span, .. } => *span,
        PyStmt::Delete { span, .. } => *span,
        PyStmt::Break { span } => *span,
        PyStmt::Continue { span } => *span,
        PyStmt::Pass { span } => *span,
        PyStmt::Import { span, .. } => *span,
        PyStmt::ImportFrom { span, .. } => *span,
        PyStmt::Assign { span, .. } => *span,
        PyStmt::Expr { span, .. } => *span,
    }
}

/// The span from the start of `left` to the end of `right`.
pub fn merge_span(left: &SourceSpan, right: &SourceSpan) -> (r: SourceSpan)
    ensures
        r == (SourceSpan { start: left.start, end: right.end }),
{
    SourceSpan { start: left.start, end: right.end }
}

/// The span from the first to the last statement of a block, if it has any.
pub fn span_from_block(block: &Vec<PyStmt>) -> (r: Option<SourceSpan>)
    ensures
        r == (if block.len() > 0 {
            Some(block_span_or(view_stmts(*block), crate::lower::dummy_span()))
        } else {
            None
        }),
{
    if block.len() == 0 {
        return None;
    }
    let first = stmt_span(&block[0]);
    let last = stmt_span(&block[block.len() - 1]);
    assert(view_stmts(*block)[0] == block@[0]@);
    assert(view_stmts(*block).last() == block@[block.len() - 1]@);
    Some(merge_span(&first, &last))
}

/// Copies of each string of `v`.
pub fn clone_strings(v: &Vec<String>) -> (r: Vec<String>)
    ensures
        strings_view(r) == strings_view(*v),
{
    let mut out: Vec<String> = Vec::new();
    let mut i: usize = 0;
    while i < v.len()
        invariant
            i <= v.len(),
            out.len() == i,
            forall|j: int| 0 <= j < i ==> out[j]@ == v[j]@,
        decreases v.len() - i,
    {
        out.push(v[i].clone());
        i += 1;
    }
    assert(strings_view(out) =~= strings_view(*v));
    out
}

fn clone_opt_string(o: &Option<String>) -> (r: Option<String>)
    ensures
        opt_string_view(r) == opt_string_view(*o),
{
    match o {
        Some(s) => Some(s.clone()),
        None => None,
    }
}

fn lower_opt_expr(o: &Option<Expr>) -> (r: Result<Option<PyExpr>, LowerError>)
    requires
        reportable(opt_expr_fault(*o)),
    ensures
        r is Ok <==> opt_expr_fault(*o) is None,
        r matches Ok(v) ==> view_opt_expr(v) == lower_opt_expr_spec(*o),
        r matches Err(err) ==> err.message@ == fault_message(opt_expr_fault(*o).unwrap()),
{
    match o {
        Some(e) => {
            let p = lower_expr(e)?;
            Ok(Some(p))
        },
        None => Ok(None),
    }
}

/// Lowers an assignment target to the Python expression it stores into.
pub fn lower_assign_target(target: &AssignTarget) -> (r: Result<PyExpr, LowerError>)
    requires
        reportable(target_fault(*target)),
    ensures
        r is Ok <==> target_fault(*target) is None,
        r matches Ok(p) ==> p@ == lower_target_spec(*target),
        r matches Err(err) ==> err.message@ == fault_message(target_fault(*target).unwrap()),
{
    proof {
        reveal(crate::pyast::view_expr);
    }
    match target {
        AssignTarget::Name { name, span } => Ok(PyExpr::Name { id: name.clone(), span: *span }),
        AssignTarget::Attribute { value, attr, span } => {
            let v = lower_expr(value)?;
            Ok(PyExpr::Attribute { value: Box::new(v), attr: attr.clone(), span: *span })
        },
        AssignTarget::Index { value, index, span } => {
            let v = lower_expr(value)?;
            let i = lower_expr(index)?;
            Ok(PyExpr::Index { value: Box::new(v), index: Box::new(i), span: *span })
        },
    }
}

fn lower_assign_targets(v: &Vec<AssignTarget>) -> (r: Result<Vec<PyExpr>, LowerError>)
    requires
        reportable(targets_fault(v@, 0)),
    ensures
        r is Ok <==> targets_fault(v@, 0) is None,
        r matches Ok(out) ==> view_exprs(out) == Seq::new(
            v.len() as nat,
            |i: int| lower_target_spec(v[i]),
        ),
        r matches Err(err) ==> err.message@ == fault_message(targets_fault(v@, 0).unwrap()),
{
    let mut out: Vec<PyExpr> = Vec::new();
    let mut i: usize = 0;
    while i < v.len()
        invariant
            i <= v.len(),
            out.len() == i,
            targets_fault(v@, 0) == targets_fault(v@, i as int),
            reportable(targets_fault(v@, 0)),
            forall|j: int| 0 <= j < i ==> out[j]@ == lower_target_spec(v[j]),
        decreases v.len() - i,
    {
        let p = lower_assign_target(&v[i])?;
        out.push(p);
        i += 1;
    }
    assert(view_exprs(out) =~= Seq::new(v.len() as nat, |i: int| lower_target_spec(v[i])));
    Ok(out)
}

fn lower_parameter(param: &Parameter) -> (r: Result<PyParameter, LowerError>)
    requires
        reportable(param_fault(*param)),
    ensures
        r is Ok <==> param_fault(*param) is None,
        r matches Ok(p) ==> view_parameter(p) == lower_param_spec(*param),
        r matches Err(err) ==> err.message@ == fault_message(param_fault(*param).unwrap()),
{
    match param {
        Parameter::Regular { name, default, span } => {
            let d = lower_opt_expr(default)?;
            Ok(PyParameter::Regular { name: name.clone(), default: d, span: *span })
        },
        Parameter::VarArgs { name, span } => Ok(PyParameter::VarArgs { name: name.clone(), span: *span }),
        Parameter::KwArgs { name, span } => Ok(PyParameter::KwArgs { name: name.clone(), span: *span }),
    }
}

fn lower_parameters(v: &Vec<Parameter>) -> (r: Result<Vec<PyParameter>, LowerError>)
    requires
        reportable(params_fault(v@, 0)),
    ensures
        r is Ok <==> params_fault(v@, 0) is None,
        r matches Ok(out) ==> Seq::new(out.len() as nat, |i: int| view_parameter(out[i]))
            == Seq::new(v.len() as nat, |i: int| lower_param_spec(v[i])),
        r matches Err(err) ==> err.message@ == fault_message(params_fault(v@, 0).unwrap()),
{
    let mut out: Vec<PyParameter> = Vec::new();
    let mut i: usize = 0;
    while i < v.len()
        invariant
            i <= v.len(),
            out.len() == i,
            params_fault(v@, 0) == params_fault(v@, i as int),
            reportable(params_fault(v@, 0)),
            forall|j: int| 0 <= j < i ==> view_parameter(out[j]) == lower_param_spec(v[j]),
        decreases v.len() - i,
    {
        let p = lower_parameter(&v[i])?;
        out.push(p);
        i += 1;
    }
    assert(Seq::new(out.len() as nat, |i: int| view_parameter(out[i])) =~= Seq::new(
        v.len() as nat,
        |i: int| lower_param_spec(v[i]),
    ));
    Ok(out)
}

fn lower_with_item(item: &WithItem) -> (r: Result<PyWithItem, LowerError>)
    requires
        reportable(with_item_fault(*item)),
    ensures
        r is Ok <==> with_item_fault(*item) is None,
        r matches Ok(p) ==> view_with_item(p) == lower_with_item_spec(*item),
        r matches Err(err) ==> err.message@ == fault_message(with_item_fault(*item).unwrap()),
{
    let context = lower_expr(&item.context)?;
    let target = match &item.target {
        Some(t) => Some(lower_assign_target(t)?),
        None => None,
    };
    Ok(PyWithItem { context, target, span: item.span })
}

fn lower_with_items(v: &Vec<WithItem>) -> (r: Result<Vec<PyWithItem>, LowerError>)
    requires
        reportable(with_items_fault(v@, 0)),
    ensures
        r is Ok <==> with_items_fault(v@, 0) is None,
        r matches Ok(out) ==> Seq::new(out.len() as nat, |i: int| view_with_item(out[i]))
            == Seq::new(v.len() as nat, |i: int| lower_with_item_spec(v[i])),
        r matches Err(err) ==> err.message@ == fault_message(with_items_fault(v@, 0).unwrap()),
{
    let mut out: Vec<PyWithItem> = Vec::new();
    let mut i: usize = 0;
    while i < v.len()
        invariant
            i <= v.len(),
            out.len() == i,
            with_items_fault(v@, 0) == with_items_fault(v@, i as int),
            reportable(with_items_fault(v@, 0)),
            forall|j: int| 0 <= j < i ==> view_with_item(out[j]) == lower_with_item_spec(v[j]),
        decreases v.len() - i,
    {
        let p = lower_with_item(&v[i])?;
        out.push(p);
        i += 1;
    }
    assert(Seq::new(out.len() as nat, |i: int| view_with_item(out[i])) =~= Seq::new(
        v.len() as nat,
        |i: int| lower_with_item_spec(v[i]),
    ));
    Ok(out)
}

/// The Python import name for an import item.
pub fn lower_import_name(item: &ImportItem) -> (r: PyImportName)
    ensures
        view_import_name(r) == import_name_spec(*item),
{
    PyImportName {
        name: clone_strings(&item.name),
        asname: clone_opt_string(&item.alias),
        span: item.span,
    }
}

fn lower_import_names(items: &Vec<ImportItem>) -> (r: Vec<PyImportName>)
    ensures
        Seq::new(r.len() as nat, |i: int| view_import_name(r[i])) == items@.map_values(
            |item: ImportItem| import_name_spec(item),
        ),
{
    let mut out: Vec<PyImportName> = Vec::new();
    let mut i: usize = 0;
    while i < items.len()
        invariant
            i <= items.len(),
            out.len() == i,
            forall|j: int| 0 <= j < i ==> view_import_name(out[j]) == import_name_spec(items[j]),
        decreases items.len() - i,
    {
        out.push(lower_import_name(&items[i]));
        i += 1;
    }
    assert(Seq::new(out.len() as nat, |i: int| view_import_name(out[i])) =~= items@.map_values(
        |item: ImportItem| import_name_spec(item),
    ));
    out
}

fn is_braces(item: &ImportItem) -> (r: bool)
    ensures
        r == is_braces_item(*item),
{
    item.name.len() == 1 && str_eq(item.name[0].as_str(), "braces")
}

/// The import names of the items other than `braces`, in order.
fn lower_import_names_without_braces(items: &Vec<ImportItem>) -> (r: Vec<PyImportName>)
    ensures
        Seq::new(r.len() as nat, |i: int| view_import_name(r[i])) == without_braces(
            items@,
        ).map_values(|item: ImportItem| import_name_spec(item)),
{
    let mut out: Vec<PyImportName> = Vec::new();
    let mut i: usize = 0;
    while i < items.len()
        invariant
            i <= items.len(),
            Seq::new(out.len() as nat, |j: int| view_import_name(out[j])) == without_braces(
                items@.take(i as int),
            ).map_values(|item: ImportItem| import_name_spec(item)),
        decreases items.len() - i,
    {
        let ghost before = Seq::new(out.len() as nat, |j: int| view_import_name(out[j]));
        assert(items@.take(i + 1).drop_last() == items@.take(i as int));
        assert(items@.take(i + 1).last() == items@[i as int]);
        if !is_braces(&items[i]) {
            out.push(lower_import_name(&items[i]));
            assert(Seq::new(out.len() as nat, |j: int| view_import_name(out[j])) =~= before.push(
                import_name_spec(items@[i as int]),
            ));
        }
        i += 1;
    }
    assert(items@.take(items.len() as int) == items@);
    out
}

fn lower_import_from(stmt: &Stmt) -> (r: PyStmt)
    requires
        stmt is ImportFrom,
    ensures
        r@ == lower_stmt_spec(*stmt),
{
    proof {
        reveal(crate::pyast::view_stmt);
    }
    match stmt {
        Stmt::ImportFrom { module, items, span } => {
            if module.len() == 1 && str_eq(module[0].as_str(), "__future__") {
                let names = lower_import_names_without_braces(items);
                if names.len() == 0 {
                    assert(without_braces(items@).map_values(
                        |item: ImportItem| import_name_spec(item),
                    ).len() == 0);
                    return PyStmt::Pass { span: *span };
                }
                let r = PyStmt::ImportFrom { module: clone_strings(module), names, span: *span };
                assert(r@->ImportFrom_names =~= without_braces(items@).map_values(
                    |item: ImportItem| import_name_spec(item),
                ));
                r
            } else {
                let names = lower_import_names(items);
                let r = PyStmt::ImportFrom { module: clone_strings(module), names, span: *span };
                assert(r@->ImportFrom_names =~= items@.map_values(
                    |item: ImportItem| import_name_spec(item),
                ));
                r
            }
        },
        _ => PyStmt::Pass { span: SourceSpan {
            start: crate::ast::SourcePos { offset: 0, line: 0, column: 0 },
            end: crate::ast::SourcePos { offset: 0, line: 0, column: 0 },
        } },
    }
}

/// Lowers a block of statements, in order.
pub fn lower_block(block: &Vec<Stmt>) -> (r: Result<Vec<PyStmt>, LowerError>)
    requires
        reportable(block_fault(block@, 0)),
    ensures
        r is Ok <==> block_fault(block@, 0) is None,
        r matches Ok(out) ==> view_stmts(out) == lower_block_spec(*block),
        r matches Err(err) ==> err.message@ == fault_message(block_fault(block@, 0).unwrap()),
    decreases block, 0int,
{
    let mut out: Vec<PyStmt> = Vec::new();
    let mut i: usize = 0;
    while i < block.len()
        invariant
            i <= block.len(),
            out.len() == i,
            block_fault(block@, 0) == block_fault(block@, i as int),
            reportable(block_fault(block@, 0)),
            forall|j: int| 0 <= j < i ==> out[j]@ == lower_stmt_spec(block[j]),
        decreases block.len() - i,
    {
        proof {
            assert(decreases_to!(*block => block[i as int]));
        }
        let p = lower_stmt(&block[i])?;
        out.push(p);
        i += 1;
    }
    assert(view_stmts(out) =~= lower_block_spec(*block));
    Ok(out)
}

fn lower_opt_block(block: &Option<Vec<Stmt>>) -> (r: Result<Vec<PyStmt>, LowerError>)
    requires
        reportable(opt_block_fault(*block)),
    ensures
        r is Ok <==> opt_block_fault(*block) is None,
        r matches Ok(out) ==> view_stmts(out) == lower_opt_block_spec(*block),
        r matches Err(err) ==> err.message@ == fault_message(opt_block_fault(*block).unwrap()),
    decreases block, 0int,
{
    match block {
        Some(b) => lower_block(b),
        None => {
            let out: Vec<PyStmt> = Vec::new();
            assert(view_stmts(out) =~= Seq::<SpecPyStmt>::empty());
            Ok(out)
        },
    }
}

fn lower_except_handler(handler: &ExceptHandler) -> (r: Result<PyExceptHandler, LowerError>)
    requires
        reportable(handler_fault(*handler)),
    ensures
        r is Ok <==> handler_fault(*handler) is None,
        r matches Ok(p) ==> view_handler(p) == lower_handler_spec(*handler),
        r matches Err(err) ==> err.message@ == fault_message(handler_fault(*handler).unwrap()),
    decreases handler, 0int,
{
    let exception_type = lower_opt_expr(&handler.exception_type)?;
    let body = lower_block(&handler.body)?;
    Ok(PyExceptHandler { exception_type, name: clone_opt_string(&handler.name), body, span: handler.span })
}

fn lower_except_handlers(v: &Vec<ExceptHandler>) -> (r: Result<Vec<PyExceptHandler>, LowerError>)
    requires
        reportable(handlers_fault(v@, 0)),
    ensures
        r is Ok <==> handlers_fault(v@, 0) is None,
        r matches Ok(out) ==> forall|i: int|
            0 <= i < v.len() ==> out.len() == v.len() && #[trigger] view_handler(out[i])
                == lower_handler_spec(v[i]),
        r matches Ok(out) ==> out.len() == v.len(),
        r matches Err(err) ==> err.message@ == fault_message(handlers_fault(v@, 0).unwrap()),
    decreases v, 0int,
{
    let mut out: Vec<PyExceptHandler> = Vec::new();
    let mut i: usize = 0;
    while i < v.len()
        invariant
            i <= v.len(),
            out.len() == i,
            handlers_fault(v@, 0) == handlers_fault(v@, i as int),
            reportable(handlers_fault(v@, 0)),
            forall|j: int| 0 <= j < i ==> view_handler(out[j]) == lower_handler_spec(v[j]),
        decreases v.len() - i,
    {
        proof {
            assert(decreases_to!(*v => v[i as int]));
        }
        let p = lower_except_handler(&v[i])?;
        out.push(p);
        i += 1;
    }
    Ok(out)
}

/// Lowers one statement.
pub fn lower_stmt(stmt: &Stmt) -> (r: Result<PyStmt, LowerError>)
    requires
        reportable(stmt_fault(*stmt)),
    ensures
        r is Ok <==> stmt_fault(*stmt) is None,
        r matches Ok(p) ==> p@ == lower_stmt_spec(*stmt),
        r matches Err(err) ==> err.message@ == fault_message(stmt_fault(*stmt).unwrap()),
    decreases stmt, 2int,
{
    match stmt {
        Stmt::If { .. } => lower_if(stmt),
        Stmt::While { .. } => lower_while_stmt(stmt),
        Stmt::For { .. } => lower_for_stmt(stmt),
        Stmt::Def { .. } => lower_def_stmt(stmt),
        Stmt::Class { .. } => lower_class_stmt(stmt),
        Stmt::Try { .. } => lower_try_stmt(stmt),
        Stmt::With { .. } => lower_with_stmt(stmt),
        Stmt::ImportFrom { .. } => Ok(lower_import_from(stmt)),
        _ => lower_simple_stmt(stmt),
    }
}

/// Lowers the conditions and blocks of an `if` statement and of its `elif`s,
/// in source order.
#[verifier::loop_isolation(false)]
fn lower_if_branches(stmt: &Stmt) -> (r: Result<(Vec<PyExpr>, Vec<Vec<PyStmt>>), LowerError>)
    requires
        reportable(if_branches_fault(*stmt)),
        *stmt is If,
    ensures
        r is Ok <==> if_branches_fault(*stmt) is None,
        r matches Ok((tests, bodies)) ==> tests.len() == bodies.len() && tests.len() >= 1
            && view_exprs(tests) == if_tests_spec(*stmt) && view_blocks(bodies) == if_bodies_spec(*stmt),
        r matches Err(err) ==> err.message@ == fault_message(if_branches_fault(*stmt).unwrap()),
    decreases stmt, 0int,
{
    match stmt {
        Stmt::If { cond, body, elifs, .. } => {
            let ghost tests_model = if_tests_spec(*stmt);
            let ghost bodies_model = if_bodies_spec(*stmt);
            let mut tests: Vec<PyExpr> = Vec::new();
            let mut bodies: Vec<Vec<PyStmt>> = Vec::new();
            assert(tests_model.len() == elifs.len() + 1);
            assert(bodies_model.len() == elifs.len() + 1);
            assert(tests_model[0] == lower_expr_spec(*cond, None));
            assert(bodies_model[0] == lower_block_spec(*body));
            let t0 = lower_expr(cond)?;
            tests.push(t0);
            let b0 = lower_block(body)?;
            bodies.push(b0);
            let mut k: usize = 0;
            while k < elifs.len()
                invariant
                    k <= elifs.len(),
                    tests.len() == k + 1,
                    bodies.len() == k + 1,
                    elifs_fault(elifs@, 0) == elifs_fault(elifs@, k as int),
                    forall|j: int| 0 <= j <= k ==> (#[trigger] tests[j])@ == tests_model[j],
                    forall|j: int| 0 <= j <= k ==> view_stmts(#[trigger] bodies[j]) == bodies_model[j],
                decreases elifs.len() - k,
            {
                proof {
                    assert(decreases_to!(*stmt => *elifs));
                    assert(decreases_to!(*elifs => elifs[k as int]));
                    assert(decreases_to!(elifs[k as int] => elifs[k as int].1));
                }
                let t = lower_expr(&elifs[k].0)?;
                let b = lower_block(&elifs[k].1)?;
                assert(tests_model[k + 1] == lower_expr_spec(elifs[k as int].0, None));
                assert(bodies_model[k + 1] == lower_block_spec(elifs[k as int].1));
                tests.push(t);
                bodies.push(b);
                k += 1;
            }
            assert(view_exprs(tests) =~= tests_model);
            assert(view_blocks(bodies) =~= bodies_model);
            Ok((tests, bodies))
        },
        _ => Err(LowerError::new("")),
    }
}

/// Nests the lowered branches of an `if` chain: the last branch holds the
/// `else` block, and each earlier one holds the next as its `else`.
#[verifier::loop_isolation(false)]
fn build_if_chain(
    tests: Vec<PyExpr>,
    bodies: Vec<Vec<PyStmt>>,
    orelse: Vec<PyStmt>,
    hint: SourceSpan,
) -> (r: PyStmt)
    requires
        tests.len() == bodies.len(),
        tests.len() >= 1,
    ensures
        r@ == if_chain_spec(view_exprs(tests), view_blocks(bodies), view_stmts(orelse), hint, 0),
{
    proof {
        reveal(crate::pyast::view_stmt);
    }
    let ghost tests_model = view_exprs(tests);
    let ghost bodies_model = view_blocks(bodies);
    assert forall|j: int| 0 <= j < tests.len() implies (#[trigger] tests[j])@ == tests_model[j] by {}
    assert forall|j: int| 0 <= j < tests.len() implies view_stmts(#[trigger] bodies[j]) == bodies_model[j] by {}
    let ghost orelse_model = view_stmts(orelse);
    let mut tests = tests;
    let mut bodies = bodies;
    let n = tests.len();
    let last_test = tests.pop().unwrap();
    let last_body = bodies.pop().unwrap();
    assert(last_test@ == tests_model[n - 1]);
    assert(view_stmts(last_body) == bodies_model[n - 1]);
    let start = expr_span(&last_test).start;
    let end = if orelse.len() > 0 {
        stmt_span(&orelse[orelse.len() - 1]).end
    } else {
        match span_from_block(&last_body) {
            Some(sp) => sp.end,
            None => hint.end,
        }
    };
    proof {
        if orelse.len() > 0 {
            assert(orelse_model.last() == orelse@[orelse.len() - 1]@);
        }
    }
    let mut acc = PyStmt::If { test: last_test, body: last_body, orelse, span: SourceSpan { start, end } };
    assert(acc@ == if_chain_spec(tests_model, bodies_model, orelse_model, hint, n - 1));
    while tests.len() > 0
        invariant
            tests.len() == bodies.len(),
            tests.len() < n,
            n == tests_model.len(),
            n == bodies_model.len(),
            forall|j: int| 0 <= j < tests.len() ==> (#[trigger] tests[j])@ == tests_model[j],
            forall|j: int| 0 <= j < tests.len() ==> view_stmts(#[trigger] bodies[j]) == bodies_model[j],
            acc@ == if_chain_spec(tests_model, bodies_model, orelse_model, hint, tests.len() as int),
        decreases tests.len(),
    {
        let t = tests.pop().unwrap();
        let b = bodies.pop().unwrap();
        let k = tests.len();
        assert(t@ == tests_model[k as int]);
        assert(view_stmts(b) == bodies_model[k as int]);
        let start = expr_span(&t).start;
        let end = stmt_span(&acc).end;
        let ghost inner = acc@;
        let mut nested: Vec<PyStmt> = Vec::new();
        nested.push(acc);
        assert(view_stmts(nested) =~= seq![inner]);
        assert(k + 1 < tests_model.len());
        assert(if_chain_spec(tests_model, bodies_model, orelse_model, hint, k as int) == SpecPyStmt::If {
            test: tests_model[k as int],
            body: bodies_model[k as int],
            orelse: seq![inner],
            span: SourceSpan { start: spec_expr_span(tests_model[k as int]).start, end: spec_stmt_span(inner).end },
        });
        acc = PyStmt::If { test: t, body: b, orelse: nested, span: SourceSpan { start, end } };
    }
    acc
}

/// An `if` statement fails exactly where its branches or its `else` block
/// fail, and lowers to the nested chain of its lowered branches.
proof fn lemma_if_parts(s: Stmt)
    requires
        s is If,
    ensures
        stmt_fault(s) == first_fault(if_branches_fault(s), opt_block_fault(s->If_else_body)),
        lower_stmt_spec(s) == if_chain_spec(
            if_tests_spec(s),
            if_bodies_spec(s),
            lower_opt_block_spec(s->If_else_body),
            s->If_span,
            0,
        ),
{
}

/// Lowers an `if`/`elif`/`else` statement into nested Python `if` statements.
fn lower_if(stmt: &Stmt) -> (r: Result<PyStmt, LowerError>)
    requires
        reportable(stmt_fault(*stmt)),
        *stmt is If,
    ensures
        r is Ok <==> stmt_fault(*stmt) is None,
        r matches Ok(p) ==> p@ == lower_stmt_spec(*stmt),
        r matches Err(err) ==> err.message@ == fault_message(stmt_fault(*stmt).unwrap()),
    decreases stmt, 1int,
{
    proof {
        lemma_if_parts(*stmt);
    }
    match stmt {
        Stmt::If { else_body, span, .. } => {
            let branches = lower_if_branches(stmt);
            match branches {
                Err(e) => Err(e),
                Ok((tests, bodies)) => {
                    let orelse = lower_opt_block(else_body);
                    match orelse {
                        Err(e) => Err(e),
                        Ok(orelse) => Ok(build_if_chain(tests, bodies, orelse, *span)),
                    }
                },
            }
        },
        _ => Err(LowerError::new("")),
    }
}

fn lower_while_stmt(stmt: &Stmt) -> (r: Result<PyStmt, LowerError>)
    requires
        reportable(stmt_fault(*stmt)),
        *stmt is While,
    ensures
        r is Ok <==> stmt_fault(*stmt) is None,
        r matches Ok(p) ==> p@ == lower_stmt_spec(*stmt),
        r matches Err(err) ==> err.message@ == fault_message(stmt_fault(*stmt).unwrap()),
    decreases stmt, 0int,
{
    proof {
        reveal(crate::pyast::view_stmt);
    }
    match stmt {
        Stmt::While { cond, body, else_body, span } => {
            let test = lower_expr(cond)?;
            let b = lower_block(body)?;
            let o = lower_opt_block(else_body)?;
            Ok(PyStmt::While { test, body: b, orelse: o, span: *span })
        },
        _ => Err(LowerError::new("")),
    }
}

fn lower_for_stmt(stmt: &Stmt) -> (r: Result<PyStmt, LowerError>)
    requires
        reportable(stmt_fault(*stmt)),
        *stmt is For,
    ensures
        r is Ok <==> stmt_fault(*stmt) is None,
        r matches Ok(p) ==> p@ == lower_stmt_spec(*stmt),
        r matches Err(err) ==> err.message@ == fault_message(stmt_fault(*stmt).unwrap()),
    decreases stmt, 0int,
{
    proof {
        reveal(crate::pyast::view_stmt);
    }
    match stmt {
        Stmt::For { target, iter, body, else_body, span } => {
            let t = lower_assign_target(target)?;
            let it = lower_expr(iter)?;
            let b = lower_block(body)?;
            let o = lower_opt_block(else_body)?;
            Ok(PyStmt::For { target: t, iter: it, body: b, orelse: o, span: *span })
        },
        _ => Err(LowerError::new("")),
    }
}

fn lower_def_stmt(stmt: &Stmt) -> (r: Result<PyStmt, LowerError>)
    requires
        reportable(stmt_fault(*stmt)),
        *stmt is Def,
    ensures
        r is Ok <==> stmt_fault(*stmt) is None,
        r matches Ok(p) ==> p@ == lower_stmt_spec(*stmt),
        r matches Err(err) ==> err.message@ == fault_message(stmt_fault(*stmt).unwrap()),
    decreases stmt, 0int,
{
    proof {
        reveal(crate::pyast::view_stmt);
    }
    match stmt {
        Stmt::Def { name, params, body, span } => {
            let args = lower_parameters(params)?;
            let b = lower_block(body)?;
            let r = PyStmt::FunctionDef { name: name.clone(), args, body: b, span: *span };
            assert(r@->FunctionDef_args =~= Seq::new(params.len() as nat, |i: int| lower_param_spec(params[i])));
            Ok(r)
        },
        _ => Err(LowerError::new("")),
    }
}

fn lower_class_stmt(stmt: &Stmt) -> (r: Result<PyStmt, LowerError>)
    requires
        reportable(stmt_fault(*stmt)),
        *stmt is Class,
    ensures
        r is Ok <==> stmt_fault(*stmt) is None,
        r matches Ok(p) ==> p@ == lower_stmt_spec(*stmt),
        r matches Err(err) ==> err.message@ == fault_message(stmt_fault(*stmt).unwrap()),
    decreases stmt, 0int,
{
    proof {
        reveal(crate::pyast::view_stmt);
    }
    match stmt {
        Stmt::Class { name, body, span } => {
            let b = lower_block(body)?;
            Ok(PyStmt::ClassDef { name: name.clone(), body: b, span: *span })
        },
        _ => Err(LowerError::new("")),
    }
}

fn lower_try_stmt(stmt: &Stmt) -> (r: Result<PyStmt, LowerError>)
    requires
        reportable(stmt_fault(*stmt)),
        *stmt is Try,
    ensures
        r is Ok <==> stmt_fault(*stmt) is None,
        r matches Ok(p) ==> p@ == lower_stmt_spec(*stmt),
        r matches Err(err) ==> err.message@ == fault_message(stmt_fault(*stmt).unwrap()),
    decreases stmt, 0int,
{
    proof {
        reveal(crate::pyast::view_stmt);
    }
    match stmt {
        Stmt::Try { body, handlers, else_body, finally_body, span } => {
            let b = lower_block(body)?;
            let h = lower_except_handlers(handlers)?;
            let o = lower_opt_block(else_body)?;
            let f = lower_opt_block(finally_body)?;
            let r = PyStmt::Try { body: b, handlers: h, orelse: o, finalbody: f, span: *span };
            assert(r@->Try_handlers.len() == handlers.len());
            assert forall|i: int|
                0 <= i < handlers.len() implies r@->Try_handlers[i] == lower_handler_spec(
                    handlers[i],
                ) by {
                assert(r@->Try_handlers[i] == view_handler(r->Try_handlers[i]));
            }
            let ghost model = lower_stmt_spec(*stmt);
            assert(model->Try_handlers.len() == handlers.len());
            assert(r@->Try_handlers =~= model->Try_handlers);
            Ok(r)
        },
        _ => Err(LowerError::new("")),
    }
}

fn lower_with_stmt(stmt: &Stmt) -> (r: Result<PyStmt, LowerError>)
    requires
        reportable(stmt_fault(*stmt)),
        *stmt is With,
    ensures
        r is Ok <==> stmt_fault(*stmt) is None,
        r matches Ok(p) ==> p@ == lower_stmt_spec(*stmt),
        r matches Err(err) ==> err.message@ == fault_message(stmt_fault(*stmt).unwrap()),
    decreases stmt, 0int,
{
    proof {
        reveal(crate::pyast::view_stmt);
    }
    match stmt {
        Stmt::With { items, body, span } => {
            let i = lower_with_items(items)?;
            let b = lower_block(body)?;
            let r = PyStmt::With { items: i, body: b, span: *span };
            assert(r@->With_items =~= Seq::new(items.len() as nat, |i: int| lower_with_item_spec(items[i])));
            Ok(r)
        },
        _ => Err(LowerError::new("")),
    }
}

/// Lowers the statements that hold no block.
fn lower_simple_stmt(stmt: &Stmt) -> (r: Result<PyStmt, LowerError>)
    requires
        reportable(stmt_fault(*stmt)),
        !(*stmt is If || *stmt is While || *stmt is For || *stmt is Def || *stmt is Class
            || *stmt is Try || *stmt is With || *stmt is ImportFrom),
    ensures
        r is Ok <==> stmt_fault(*stmt) is None,
        r matches Ok(p) ==> p@ == lower_stmt_spec(*stmt),
        r matches Err(err) ==> err.message@ == fault_message(stmt_fault(*stmt).unwrap()),
{
    proof {
        reveal(crate::pyast::view_stmt);
    }
    match stmt {
        Stmt::Return { value, span } => {
            let v = lower_opt_expr(value)?;
            Ok(PyStmt::Return { value: v, span: *span })
        },
        Stmt::Raise { value, from, span } => {
            let v = lower_opt_expr(value)?;
            let f = lower_opt_expr(from)?;
            Ok(PyStmt::Raise { value: v, from: f, span: *span })
        },
        Stmt::Assert { test, message, span } => {
            let t = lower_expr(test)?;
            let m = lower_opt_expr(message)?;
            Ok(PyStmt::Assert { test: t, message: m, span: *span })
        },
        Stmt::Delete { targets, span } => {
            let t = lower_assign_targets(targets)?;
            Ok(PyStmt::Delete { targets: t, span: *span })
        },
        Stmt::Break { span } => Ok(PyStmt::Break { span: *span }),
        Stmt::Continue { span } => Ok(PyStmt::Continue { span: *span }),
        Stmt::Pass { span } => Ok(PyStmt::Pass { span: *span }),
        Stmt::Import { items, span } => {
            let names = lower_import_names(items);
            let r = PyStmt::Import { names, span: *span };
            assert(r@->Import_names =~= items@.map_values(|item: ImportItem| import_name_spec(item)));
            Ok(r)
        },
        Stmt::Assign { targets, value, span } => {
            let t = lower_assign_targets(targets)?;
            let v = lower_expr(value)?;
            Ok(PyStmt::Assign { targets: t, value: v, span: *span })
        },
        Stmt::Expr { value, semicolon_terminated, span } => {
            let v = lower_expr(value)?;
            Ok(PyStmt::Expr { value: v, semicolon_terminated: *semicolon_terminated, span: *span })
        },
        _ => Err(LowerError::new("")),
    }
}

/// Lowers a Snail program into a Python module.
pub fn lower_program(program: &Program) -> (r: Result<PyModule, LowerError>)
    requires
        reportable(block_fault(program.stmts@, 0)),
    ensures
        r is Ok <==> block_fault(program.stmts@, 0) is None,
        r matches Ok(m) ==> m@ == (SpecPyModule {
            body: lower_block_spec(program.stmts),
            span: program.span,
        }),
        r matches Err(err) ==> err.message@ == fault_message(
            block_fault(program.stmts@, 0).unwrap(),
        ),
{
    let body = lower_block(&program.stmts)?;
    Ok(PyModule { body, span: program.span })
}

} // verus!
