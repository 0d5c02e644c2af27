//! Writing a Python module as source text: statements line by line with
//! four spaces of indentation per level, preceded by the runtime helpers
//! that the module calls.
use vstd::prelude::*;
use crate::emit_expr::{expr_source, expr_text, exprs_texts, join, join_strings};
use crate::lower::{
    SNAIL_EXCEPTION_VAR, SNAIL_JSON_FUNCTION, SNAIL_JSON_OBJECT_CLASS, SNAIL_REGEX_CLASS,
    SNAIL_REGEX_COMPILE, SNAIL_REGEX_SEARCH,
    SNAIL_STRUCTURED_ACCESSOR_CLASS, SNAIL_SUBPROCESS_CAPTURE_CLASS, SNAIL_SUBPROCESS_STATUS_CLASS,
    SNAIL_TRY_HELPER,
};
use crate::pyast::{
    PyExceptHandler, PyExpr, PyImportName, PyModule, PyParameter, PyStmt, PyWithItem, strings_view,
};
use crate::text::{chars_of, push_char, push_str};
use crate::usage::{
    Helper, module_uses, module_uses_snail_regex, module_uses_snail_subprocess,
    module_uses_snail_try, module_uses_structured_accessor,
};

verus! {

// ---------------------------------------------------------------------------
// The model of statement text.

pub open spec fn indent_text(n: nat) -> Seq<char>
    decreases n,
{
    if n == 0 {
        Seq::empty()
    } else {
        indent_text((n - 1) as nat) + "    "@
    }
}

/// One line: the indentation, the text and a newline.
pub open spec fn line_text(indent: nat, text: Seq<char>) -> Seq<char> {
    indent_text(indent) + text + seq!['\n']
}

pub open spec fn param_text(p: PyParameter) -> Seq<char> {
    match p {
        PyParameter::Regular { name, default, .. } => match default {
            Some(e) => name@ + "="@ + expr_text(e),
            None => name@,
        },
        PyParameter::VarArgs { name, .. } => "*"@ + name@,
        PyParameter::KwArgs { name, .. } => "**"@ + name@,
    }
}

pub open spec fn params_texts(s: Seq<PyParameter>) -> Seq<Seq<char>> {
    Seq::new(s.len(), |i: int| param_text(s[i]))
}

pub open spec fn import_text(n: PyImportName) -> Seq<char> {
    join(strings_view(n.name), "."@) + match n.asname {
        Some(a) => " as "@ + a@,
        None => Seq::empty(),
    }
}

pub open spec fn imports_texts(s: Seq<PyImportName>) -> Seq<Seq<char>> {
    Seq::new(s.len(), |i: int| import_text(s[i]))
}

pub open spec fn with_item_text(w: PyWithItem) -> Seq<char> {
    expr_text(w.context) + match w.target {
        Some(t) => " as "@ + expr_text(t),
        None => Seq::empty(),
    }
}

pub open spec fn with_items_texts(s: Seq<PyWithItem>) -> Seq<Seq<char>> {
    Seq::new(s.len(), |i: int| with_item_text(s[i]))
}

pub open spec fn handler_header(h: PyExceptHandler) -> Seq<char> {
    match h.exception_type {
        Some(t) => match h.name {
            Some(n) => "except "@ + expr_text(t) + " as "@ + n@ + ":"@,
            None => "except "@ + expr_text(t) + ":"@,
        },
        None => "except:"@,
    }
}

/// The one line of a statement without a block.
pub open spec fn simple_line(s: PyStmt) -> Seq<char> {
    match s {
        PyStmt::Return { value, .. } => match value {
            Some(e) => "return "@ + expr_text(e),
            None => "return"@,
        },
        PyStmt::Raise { value, from, .. } => match value {
            Some(e) => match from {
                Some(f) => "raise "@ + expr_text(e) + " from "@ + expr_text(f),
                None => "raise "@ + expr_text(e),
            },
            None => "raise"@,
        },
        PyStmt::Assert { test, message, .. } => match message {
            Some(m) => "assert "@ + expr_text(test) + ", "@ + expr_text(m),
            None => "assert "@ + expr_text(test),
        },
        PyStmt::Delete { targets, .. } => "del "@ + join(exprs_texts(targets@), ", "@),
        PyStmt::Break { .. } => "break"@,
        PyStmt::Continue { .. } => "continue"@,
        PyStmt::Pass { .. } => "pass"@,
        PyStmt::Import { names, .. } => "import "@ + join(imports_texts(names@), ", "@),
        PyStmt::ImportFrom { module, names, .. } => "from "@ + join(strings_view(module), "."@)
            + " import "@ + join(imports_texts(names@), ", "@),
        PyStmt::Assign { targets, value, .. } => join(exprs_texts(targets@), " = "@) + " = "@
            + expr_text(value),
        PyStmt::Expr { value, .. } => expr_text(value),
        _ => Seq::empty(),
    }
}

pub open spec fn stmt_text(s: PyStmt, ind: nat) -> Seq<char>
    decreases s, 0int,
{
    match s {
        PyStmt::If { test, body, orelse, .. } => line_text(ind, "if "@ + expr_text(test) + ":"@)
            + suite_text(body@, ind + 1) + elif_text(orelse@, ind),
        PyStmt::While { test, body, orelse, .. } => line_text(ind, "while "@ + expr_text(test) + ":"@)
            + suite_text(body@, ind + 1) + else_text(orelse@, ind),
        PyStmt::For { target, iter, body, orelse, .. } => line_text(
            ind,
            "for "@ + expr_text(target) + " in "@ + expr_text(iter) + ":"@,
        ) + suite_text(body@, ind + 1) + else_text(orelse@, ind),
        PyStmt::FunctionDef { name, args, body, .. } => line_text(
            ind,
            "def "@ + name@ + "("@ + join(params_texts(args@), ", "@) + "):"@,
        ) + suite_text(body@, ind + 1),
        PyStmt::ClassDef { name, body, .. } => line_text(ind, "class "@ + name@ + ":"@) + suite_text(
            body@,
            ind + 1,
        ),
        PyStmt::Try { body, handlers, orelse, finalbody, .. } => line_text(ind, "try:"@) + suite_text(
            body@,
            ind + 1,
        ) + handlers_text(handlers@, ind, handlers.len() as int) + else_text(orelse@, ind) + (
        if finalbody.len() > 0 {
            line_text(ind, "finally:"@) + suite_text(finalbody@, ind + 1)
        } else {
            Seq::empty()
        }),
        PyStmt::With { items, body, .. } => line_text(
            ind,
            "with "@ + join(with_items_texts(items@), ", "@) + ":"@,
        ) + suite_text(body@, ind + 1),
        _ => line_text(ind, simple_line(s)),
    }
}

/// The statements of a block, indented; `pass` for an empty one.
pub open spec fn suite_text(body: Seq<PyStmt>, ind: nat) -> Seq<char>
    decreases body, body.len() + 1,
{
    if body.len() == 0 {
        line_text(ind, "pass"@)
    } else {
        stmts_text(body, ind, body.len() as int)
    }
}

/// The first `n` statements of a block, one after another.
pub open spec fn stmts_text(s: Seq<PyStmt>, ind: nat, n: int) -> Seq<char>
    decreases s, n,
{
    if n <= 0 || n > s.len() {
        Seq::empty()
    } else {
        stmts_text(s, ind, n - 1) + stmt_text(s[n - 1], ind)
    }
}

/// The `else` part of an `if`: nothing when empty, an `elif` when it holds
/// exactly one `if`, and an `else:` block otherwise.
pub open spec fn elif_text(orelse: Seq<PyStmt>, ind: nat) -> Seq<char>
    decreases orelse, orelse.len() + 2,
{
    if orelse.len() == 0 {
        Seq::empty()
    } else if orelse.len() == 1 && orelse[0] is If {
        match orelse[0] {
            PyStmt::If { test, body, orelse: nested, .. } => line_text(
                ind,
                "elif "@ + expr_text(test) + ":"@,
            ) + suite_text(body@, ind + 1) + elif_text(nested@, ind),
            _ => Seq::empty(),
        }
    } else {
        line_text(ind, "else:"@) + suite_text(orelse, ind + 1)
    }
}

/// The `else:` block of a loop or `try`, if it has one.
pub open spec fn else_text(orelse: Seq<PyStmt>, ind: nat) -> Seq<char>
    decreases orelse, orelse.len() + 2,
{
    if orelse.len() > 0 {
        line_text(ind, "else:"@) + suite_text(orelse, ind + 1)
    } else {
        Seq::empty()
    }
}

pub open spec fn handler_text(h: PyExceptHandler, ind: nat) -> Seq<char>
    decreases h, 0int,
{
    line_text(ind, handler_header(h)) + suite_text(h.body@, ind + 1)
}

pub open spec fn handlers_text(s: Seq<PyExceptHandler>, ind: nat, n: int) -> Seq<char>
    decreases s, n,
{
    if n <= 0 || n > s.len() {
        Seq::empty()
    } else {
        handlers_text(s, ind, n - 1) + handler_text(s[n - 1], ind)
    }
}

/// How deeply blocks nest inside a statement.
pub open spec fn stmt_depth(s: PyStmt) -> nat
    decreases s, 0int,
{
    match s {
        PyStmt::If { body, orelse, .. } => 1 + nat_max(
            stmts_depth(body@, body.len() as int),
            stmts_depth(orelse@, orelse.len() as int),
        ),
        PyStmt::While { body, orelse, .. } => 1 + nat_max(
            stmts_depth(body@, body.len() as int),
            stmts_depth(orelse@, orelse.len() as int),
        ),
        PyStmt::For { body, orelse, .. } => 1 + nat_max(
            stmts_depth(body@, body.len() as int),
            stmts_depth(orelse@, orelse.len() as int),
        ),
        PyStmt::FunctionDef { body, .. } => 1 + stmts_depth(body@, body.len() as int),
        PyStmt::ClassDef { body, .. } => 1 + stmts_depth(body@, body.len() as int),
        PyStmt::Try { body, handlers, orelse, finalbody, .. } => 1 + nat_max(
            nat_max(
                stmts_depth(body@, body.len() as int),
                handlers_depth(handlers@, handlers.len() as int),
            ),
            nat_max(
                stmts_depth(orelse@, orelse.len() as int),
                stmts_depth(finalbody@, finalbody.len() as int),
            ),
        ),
        PyStmt::With { body, .. } => 1 + stmts_depth(body@, body.len() as int),
        _ => 0,
    }
}

pub open spec fn nat_max(a: nat, b: nat) -> nat {
    if a >= b {
        a
    } else {
        b
    }
}

/// The deepest nesting among the first `n` statements.
pub open spec fn stmts_depth(s: Seq<PyStmt>, n: int) -> nat
    decreases s, n,
{
    if n <= 0 || n > s.len() {
        0
    } else {
        nat_max(stmts_depth(s, n - 1), stmt_depth(s[n - 1]))
    }
}

pub open spec fn handlers_depth(s: Seq<PyExceptHandler>, n: int) -> nat
    decreases s, n,
{
    if n <= 0 || n > s.len() {
        0
    } else {
        nat_max(handlers_depth(s, n - 1), stmts_depth(s[n - 1].body@, s[n - 1].body.len() as int))
    }
}

/// How deeply blocks nest in a module.
pub open spec fn module_depth(m: PyModule) -> nat {
    stmts_depth(m.body@, m.body.len() as int)
}

proof fn lemma_stmts_depth(s: Seq<PyStmt>, n: int, i: int)
    requires
        0 <= i < n <= s.len(),
    ensures
        stmt_depth(s[i]) <= stmts_depth(s, n),
    decreases n,
{
    if i < n - 1 {
        lemma_stmts_depth(s, n - 1, i);
    }
}

proof fn lemma_handlers_depth(s: Seq<PyExceptHandler>, n: int, i: int)
    requires
        0 <= i < n <= s.len(),
    ensures
        stmts_depth(s[i].body@, s[i].body.len() as int) <= handlers_depth(s, n),
    decreases n,
{
    if i < n - 1 {
        lemma_handlers_depth(s, n - 1, i);
    }
}

// ---------------------------------------------------------------------------
// Pieces of statements.

fn push_string(out: &mut String, t: String)
    ensures
        final(out)@ == old(out)@ + t@,
{
    push_str(out, t.as_str());
}

/// The source text of a function parameter.
pub fn param_source(p: &PyParameter) -> (r: String)
    ensures
        r@ == param_text(*p),
{
    match p {
        PyParameter::Regular { name, default, .. } => {
            let mut out = name.clone();
            match default {
                Some(e) => {
                    push_str(&mut out, "=");
                    push_string(&mut out, expr_source(e));
                },
                None => {},
            }
            out
        },
        PyParameter::VarArgs { name, .. } => {
            let mut out = String::from_str("*");
            push_str(&mut out, name.as_str());
            out
        },
        PyParameter::KwArgs { name, .. } => {
            let mut out = String::from_str("**");
            push_str(&mut out, name.as_str());
            out
        },
    }
}

/// A dotted module path, with its alias if it has one.
pub fn import_name(n: &PyImportName) -> (r: String)
    ensures
        r@ == import_text(*n),
{
    let mut out = join_strings(&n.name, ".");
    match &n.asname {
        Some(a) => {
            push_str(&mut out, " as ");
            push_str(&mut out, a.as_str());
        },
        None => {},
    }
    assert(out@ =~= import_text(*n));
    out
}

/// A `with` item: the context expression and its target, if any.
pub fn with_item_source(w: &PyWithItem) -> (r: String)
    ensures
        r@ == with_item_text(*w),
{
    let mut out = expr_source(&w.context);
    match &w.target {
        Some(t) => {
            push_str(&mut out, " as ");
            push_string(&mut out, expr_source(t));
        },
        None => {},
    }
    assert(out@ =~= with_item_text(*w));
    out
}

fn params_sources(v: &Vec<PyParameter>) -> (r: Vec<String>)
    ensures
        strings_view(r) == params_texts(v@),
{
    let mut out: Vec<String> = Vec::new();
    let mut i: usize = 0;
    while i < v.len()
        invariant
            i <= v.len(),
            out.len() == i,
            forall|j: int| 0 <= j < i ==> (#[trigger] out[j])@ == param_text(v@[j]),
        decreases v.len() - i,
    {
        out.push(param_source(&v[i]));
        i += 1;
    }
    assert(strings_view(out) =~= params_texts(v@));
    out
}

fn imports_sources(v: &Vec<PyImportName>) -> (r: Vec<String>)
    ensures
        strings_view(r) == imports_texts(v@),
{
    let mut out: Vec<String> = Vec::new();
    let mut i: usize = 0;
    while i < v.len()
        invariant
            i <= v.len(),
            out.len() == i,
            forall|j: int| 0 <= j < i ==> (#[trigger] out[j])@ == import_text(v@[j]),
        decreases v.len() - i,
    {
        out.push(import_name(&v[i]));
        i += 1;
    }
    assert(strings_view(out) =~= imports_texts(v@));
    out
}

fn with_items_sources(v: &Vec<PyWithItem>) -> (r: Vec<String>)
    ensures
        strings_view(r) == with_items_texts(v@),
{
    let mut out: Vec<String> = Vec::new();
    let mut i: usize = 0;
    while i < v.len()
        invariant
            i <= v.len(),
            out.len() == i,
            forall|j: int| 0 <= j < i ==> (#[trigger] out[j])@ == with_item_text(v@[j]),
        decreases v.len() - i,
    {
        out.push(with_item_source(&v[i]));
        i += 1;
    }
    assert(strings_view(out) =~= with_items_texts(v@));
    out
}

fn exprs_joined(v: &Vec<PyExpr>, sep: &str) -> (r: String)
    ensures
        r@ == join(exprs_texts(v@), sep@),
{
    let mut out: Vec<String> = Vec::new();
    let mut i: usize = 0;
    while i < v.len()
        invariant
            i <= v.len(),
            out.len() == i,
            forall|j: int| 0 <= j < i ==> (#[trigger] out[j])@ == expr_text(v@[j]),
        decreases v.len() - i,
    {
        out.push(expr_source(&v[i]));
        i += 1;
    }
    assert(strings_view(out) =~= exprs_texts(v@));
    join_strings(&out, sep)
}

/// The line of a statement that has no block.
fn simple_line_source(s: &PyStmt) -> (r: String)
    ensures
        r@ == simple_line(*s),
{
    let mut out = String::new();
    match s {
        PyStmt::Return { value, .. } => match value {
            Some(e) => {
                push_str(&mut out, "return ");
                push_string(&mut out, expr_source(e));
            },
            None => push_str(&mut out, "return"),
        },
        PyStmt::Raise { value, from, .. } => match value {
            Some(e) => {
                push_str(&mut out, "raise ");
                push_string(&mut out, expr_source(e));
                match from {
                    Some(f) => {
                        push_str(&mut out, " from ");
                        push_string(&mut out, expr_source(f));
                    },
                    None => {},
                }
            },
            None => push_str(&mut out, "raise"),
        },
        PyStmt::Assert { test, message, .. } => {
            push_str(&mut out, "assert ");
            push_string(&mut out, expr_source(test));
            match message {
                Some(m) => {
                    push_str(&mut out, ", ");
                    push_string(&mut out, expr_source(m));
                },
                None => {},
            }
        },
        PyStmt::Delete { targets, .. } => {
            push_str(&mut out, "del ");
            push_string(&mut out, exprs_joined(targets, ", "));
        },
        PyStmt::Break { .. } => push_str(&mut out, "break"),
        PyStmt::Continue { .. } => push_str(&mut out, "continue"),
        PyStmt::Pass { .. } => push_str(&mut out, "pass"),
        PyStmt::Import { names, .. } => {
            push_str(&mut out, "import ");
            push_string(&mut out, join_strings(&imports_sources(names), ", "));
        },
        PyStmt::ImportFrom { module, names, .. } => {
            push_str(&mut out, "from ");
            push_string(&mut out, join_strings(module, "."));
            push_str(&mut out, " import ");
            push_string(&mut out, join_strings(&imports_sources(names), ", "));
        },
        PyStmt::Assign { targets, value, .. } => {
            push_string(&mut out, exprs_joined(targets, " = "));
            push_str(&mut out, " = ");
            push_string(&mut out, expr_source(value));
        },
        PyStmt::Expr { value, .. } => push_string(&mut out, expr_source(value)),
        _ => {},
    }
    assert(out@ =~= simple_line(*s));
    out
}

fn handler_header_source(h: &PyExceptHandler) -> (r: String)
    ensures
        r@ == handler_header(*h),
{
    let mut out = String::new();
    match &h.exception_type {
        Some(t) => {
            push_str(&mut out, "except ");
            push_string(&mut out, expr_source(t));
            match &h.name {
                Some(n) => {
                    push_str(&mut out, " as ");
                    push_str(&mut out, n.as_str());
                },
                None => {},
            }
            push_str(&mut out, ":");
        },
        None => push_str(&mut out, "except:"),
    }
    assert(out@ =~= handler_header(*h));
    out
}

// ---------------------------------------------------------------------------
// The writer.

/// Python source under construction, with the indentation level of the
/// next line.
struct PythonWriter {
    output: String,
    indent: usize,
}

impl PythonWriter {
    fn new() -> (w: Self)
        ensures
            w.output@ == Seq::<char>::empty(),
            w.indent == 0,
    {
        PythonWriter { output: String::new(), indent: 0 }
    }

    fn finish(self) -> (r: String)
        ensures
            r@ == self.output@,
    {
        self.output
    }

    /// Writes one line at the current indentation.
    fn write_line(&mut self, line: &str)
        ensures
            final(self).output@ == old(self).output@ + line_text(old(self).indent as nat, line@),
            final(self).indent == old(self).indent,
    {
        let ghost start = self.output@;
        let n = self.indent;
        let mut k: usize = 0;
        while k < n
            invariant
                k <= n,
                n == self.indent,
                self.output@ == start + indent_text(k as nat),
            decreases n - k,
        {
            push_str(&mut self.output, "    ");
            k += 1;
        }
        push_str(&mut self.output, line);
        push_char(&mut self.output, '\n');
        assert(self.output@ =~= start + line_text(self.indent as nat, line@));
    }

    fn write_string_line(&mut self, line: String)
        ensures
            final(self).output@ == old(self).output@ + line_text(old(self).indent as nat, line@),
            final(self).indent == old(self).indent,
    {
        self.write_line(line.as_str());
    }

    /// Writes a block one level deeper, or `pass` for an empty one.
    fn write_suite(&mut self, suite: &Vec<PyStmt>)
        requires
            old(self).indent + 1 + stmts_depth(suite@, suite.len() as int) <= usize::MAX,
        ensures
            final(self).output@ == old(self).output@ + suite_text(suite@, (old(self).indent + 1) as nat),
            final(self).indent == old(self).indent,
        decreases suite, 1int,
    {
        let ghost start = self.output@;
        let ghost ind: nat = (self.indent + 1) as nat;
        self.indent = self.indent + 1;
        if suite.len() == 0 {
            self.write_line("pass");
        } else {
            let mut i: usize = 0;
            while i < suite.len()
                invariant
                    i <= suite.len(),
                    self.indent == ind,
                    self.indent + stmts_depth(suite@, suite.len() as int) <= usize::MAX,
                    self.output@ == start + stmts_text(suite@, ind, i as int),
                decreases suite.len() - i,
            {
                proof {
                    assert(decreases_to!(*suite => suite[i as int]));
                    lemma_stmts_depth(suite@, suite.len() as int, i as int);
                }
                self.write_stmt(&suite[i]);
                i += 1;
            }
        }
        self.indent = self.indent - 1;
    }

    /// Writes a statement at the current indentation.
    fn write_stmt(&mut self, stmt: &PyStmt)
        requires
            old(self).indent + stmt_depth(*stmt) <= usize::MAX,
        ensures
            final(self).output@ == old(self).output@ + stmt_text(*stmt, old(self).indent as nat),
            final(self).indent == old(self).indent,
        decreases stmt, 1int,
    {
        match stmt {
            PyStmt::If { .. } => self.write_if_chain(stmt),
            PyStmt::While { .. } => self.write_loop(stmt),
            PyStmt::For { .. } => self.write_loop(stmt),
            PyStmt::FunctionDef { .. } => self.write_definition(stmt),
            PyStmt::ClassDef { .. } => self.write_definition(stmt),
            PyStmt::Try { .. } => self.write_try(stmt),
            PyStmt::With { .. } => self.write_with(stmt),
            _ => {
                let line = simple_line_source(stmt);
                self.write_string_line(line);
            },
        }
    }

    /// Writes `if test:`, its block, and its `elif` or `else` part.
    fn write_if_chain(&mut self, stmt: &PyStmt)
        requires
            *stmt is If,
            old(self).indent + stmt_depth(*stmt) <= usize::MAX,
        ensures
            final(self).output@ == old(self).output@ + stmt_text(*stmt, old(self).indent as nat),
            final(self).indent == old(self).indent,
        decreases stmt, 0int,
    {
        let ghost start = self.output@;
        match stmt {
            PyStmt::If { test, body, orelse, .. } => {
                let mut line = String::from_str("if ");
                push_string(&mut line, expr_source(test));
                push_str(&mut line, ":");
                self.write_string_line(line);
                self.write_suite(body);
                self.write_elif_or_else(orelse);
            },
            _ => {},
        }
        assert(self.output@ =~= start + stmt_text(*stmt, self.indent as nat));
    }

    /// Writes what follows an `if` block: an `elif` for a lone nested `if`,
    /// an `else:` block otherwise, and nothing when there is no `else`.
    fn write_elif_or_else(&mut self, orelse: &Vec<PyStmt>)
        requires
            old(self).indent + 1 + stmts_depth(orelse@, orelse.len() as int) <= usize::MAX,
        ensures
            final(self).output@ == old(self).output@ + elif_text(orelse@, old(self).indent as nat),
            final(self).indent == old(self).indent,
        decreases orelse, 2int,
    {
        if orelse.len() == 0 {
            return;
        }
        if orelse.len() == 1 {
            match &orelse[0] {
                PyStmt::If { test, body, orelse: nested, .. } => {
                    proof {
                        lemma_stmts_depth(orelse@, 1, 0);
                        assert(decreases_to!(*orelse => orelse[0]));
                    }
                    let ghost start = self.output@;
                    let mut line = String::from_str("elif ");
                    push_string(&mut line, expr_source(test));
                    push_str(&mut line, ":");
                    self.write_string_line(line);
                    self.write_suite(body);
                    self.write_elif_or_else(nested);
                    assert(self.output@ =~= start + elif_text(orelse@, self.indent as nat));
                    return;
                },
                _ => {},
            }
        }
        let ghost start = self.output@;
        self.write_line("else:");
        self.write_suite(orelse);
        assert(self.output@ =~= start + elif_text(orelse@, self.indent as nat));
    }

    /// Writes the `else:` block of a loop or `try`, if it has one.
    fn write_else_block(&mut self, orelse: &Vec<PyStmt>)
        requires
            old(self).indent + 1 + stmts_depth(orelse@, orelse.len() as int) <= usize::MAX,
        ensures
            final(self).output@ == old(self).output@ + else_text(orelse@, old(self).indent as nat),
            final(self).indent == old(self).indent,
        decreases orelse, 2int,
    {
        let ghost start = self.output@;
        if orelse.len() > 0 {
            self.write_line("else:");
            self.write_suite(orelse);
        }
        assert(self.output@ =~= start + else_text(orelse@, self.indent as nat));
    }

    fn write_loop(&mut self, stmt: &PyStmt)
        requires
            *stmt is While || *stmt is For,
            old(self).indent + stmt_depth(*stmt) <= usize::MAX,
        ensures
            final(self).output@ == old(self).output@ + stmt_text(*stmt, old(self).indent as nat),
            final(self).indent == old(self).indent,
        decreases stmt, 0int,
    {
        let ghost start = self.output@;
        match stmt {
            PyStmt::While { test, body, orelse, .. } => {
                let mut line = String::from_str("while ");
                push_string(&mut line, expr_source(test));
                push_str(&mut line, ":");
                self.write_string_line(line);
                self.write_suite(body);
                self.write_else_block(orelse);
            },
            PyStmt::For { target, iter, body, orelse, .. } => {
                let mut line = String::from_str("for ");
                push_string(&mut line, expr_source(target));
                push_str(&mut line, " in ");
                push_string(&mut line, expr_source(iter));
                push_str(&mut line, ":");
                self.write_string_line(line);
                self.write_suite(body);
                self.write_else_block(orelse);
            },
            _ => {},
        }
        assert(self.output@ =~= start + stmt_text(*stmt, self.indent as nat));
    }

    fn write_definition(&mut self, stmt: &PyStmt)
        requires
            *stmt is FunctionDef || *stmt is ClassDef,
            old(self).indent + stmt_depth(*stmt) <= usize::MAX,
        ensures
            final(self).output@ == old(self).output@ + stmt_text(*stmt, old(self).indent as nat),
            final(self).indent == old(self).indent,
        decreases stmt, 0int,
    {
        let ghost start = self.output@;
        match stmt {
            PyStmt::FunctionDef { name, args, body, .. } => {
                let mut line = String::from_str("def ");
                push_str(&mut line, name.as_str());
                push_str(&mut line, "(");
                push_string(&mut line, join_strings(&params_sources(args), ", "));
                push_str(&mut line, "):");
                self.write_string_line(line);
                self.write_suite(body);
            },
            PyStmt::ClassDef { name, body, .. } => {
                let mut line = String::from_str("class ");
                push_str(&mut line, name.as_str());
                push_str(&mut line, ":");
                self.write_string_line(line);
                self.write_suite(body);
            },
            _ => {},
        }
        assert(self.output@ =~= start + stmt_text(*stmt, self.indent as nat));
    }

    fn write_with(&mut self, stmt: &PyStmt)
        requires
            *stmt is With,
            old(self).indent + stmt_depth(*stmt) <= usize::MAX,
        ensures
            final(self).output@ == old(self).output@ + stmt_text(*stmt, old(self).indent as nat),
            final(self).indent == old(self).indent,
        decreases stmt, 0int,
    {
        let ghost start = self.output@;
        match stmt {
            PyStmt::With { items, body, .. } => {
                let mut line = String::from_str("with ");
                push_string(&mut line, join_strings(&with_items_sources(items), ", "));
                push_str(&mut line, ":");
                self.write_string_line(line);
                self.write_suite(body);
            },
            _ => {},
        }
        assert(self.output@ =~= start + stmt_text(*stmt, self.indent as nat));
    }

    /// Writes `except ...:` and the handler's block.
    fn write_except(&mut self, handler: &PyExceptHandler)
        requires
            old(self).indent + 1 + stmts_depth(handler.body@, handler.body.len() as int) <= usize::MAX,
        ensures
            final(self).output@ == old(self).output@ + handler_text(*handler, old(self).indent as nat),
            final(self).indent == old(self).indent,
        decreases handler, 0int,
    {
        let header = handler_header_source(handler);
        self.write_string_line(header);
        self.write_suite(&handler.body);
    }

    fn write_try(&mut self, stmt: &PyStmt)
        requires
            *stmt is Try,
            old(self).indent + stmt_depth(*stmt) <= usize::MAX,
        ensures
            final(self).output@ == old(self).output@ + stmt_text(*stmt, old(self).indent as nat),
            final(self).indent == old(self).indent,
        decreases stmt, 0int,
    {
        let ghost start = self.output@;
        let ghost ind = self.indent as nat;
        match stmt {
            PyStmt::Try { body, handlers, orelse, finalbody, .. } => {
                self.write_line("try:");
                self.write_suite(body);
                let ghost after_body = self.output@;
                proof {
                    assert(decreases_to!(*stmt => *handlers));
                }
                let mut i: usize = 0;
                while i < handlers.len()
                    invariant
                        i <= handlers.len(),
                        self.indent == ind,
                        self.indent + 1 + handlers_depth(handlers@, handlers.len() as int) <= usize::MAX,
                        self.output@ == after_body + handlers_text(handlers@, ind, i as int),
                        decreases_to!(*stmt => *handlers),
                    decreases handlers.len() - i,
                {
                    proof {
                        assert(decreases_to!(*handlers => handlers[i as int]));
                        lemma_handlers_depth(handlers@, handlers.len() as int, i as int);
                    }
                    self.write_except(&handlers[i]);
                    i += 1;
                }
                self.write_else_block(orelse);
                if finalbody.len() > 0 {
                    self.write_line("finally:");
                    self.write_suite(finalbody);
                }
            },
            _ => {},
        }
        assert(self.output@ =~= start + stmt_text(*stmt, ind));
    }
}

// ---------------------------------------------------------------------------
// The runtime helpers.

/// The Python sources of the jmespath modules that generated code embeds
/// for the structured accessor.
pub struct JmespathSources {
    pub compat: String,
    pub exceptions: String,
    pub ast: String,
    pub lexer: String,
    pub functions: String,
    pub visitor: String,
    pub parser: String,
    pub init: String,
}

/// Python source escaped for a double-quoted string literal: backslashes and
/// quotes get a backslash, and newlines are written `\n`.
pub open spec fn escape_py(s: Seq<char>) -> Seq<char>
    decreases s.len(),
{
    if s.len() == 0 {
        Seq::empty()
    } else {
        escape_py(s.drop_last()) + (if s.last() == '\\' {
            seq!['\\', '\\']
        } else if s.last() == '"' {
            seq!['\\', '"']
        } else if s.last() == '\n' {
            seq!['\\', 'n']
        } else {
            seq![s.last()]
        })
    }
}

/// Lines given by their indentation level and text, one after another,
/// each `k` levels further in.
pub open spec fn lines_text(k: nat, lines: Seq<(nat, Seq<char>)>) -> Seq<char>
    decreases lines.len(),
{
    if lines.len() == 0 {
        Seq::empty()
    } else {
        lines_text(k, lines.drop_last()) + line_text(k + lines.last().0, lines.last().1)
    }
}

pub open spec fn lines_view(v: Vec<(usize, String)>) -> Seq<(nat, Seq<char>)> {
    Seq::new(v.len() as nat, |i: int| (v[i].0 as nat, v[i].1@))
}

/// The compact-try helper: the value of the expression; when it raises,
/// the fallback applied to the exception, or the exception's own
/// `__fallback__`, or `None`.
pub open spec fn try_helper_lines() -> Seq<(nat, Seq<char>)> {
    Seq::empty()
        .push((0nat, "def "@ + SNAIL_TRY_HELPER@ + "(expr_fn, fallback_fn=None):"@))
        .push((1nat, "try:"@))
        .push((2nat, "return expr_fn()"@))
        .push((1nat, "except Exception as "@ + SNAIL_EXCEPTION_VAR@ + ":"@))
        .push((2nat, "if fallback_fn is None:"@))
        .push((3nat, "fallback_member = getattr("@ + SNAIL_EXCEPTION_VAR@ + ", \"__fallback__\", None)"@))
        .push((3nat, "if callable(fallback_member):"@))
        .push((4nat, "return fallback_member()"@))
        .push((3nat, "return None"@))
        .push((2nat, "return fallback_fn("@ + SNAIL_EXCEPTION_VAR@ + ")"@))
}

/// The regex helpers: a search gives the tuple of the whole match and its
/// groups, or `()`; a compiled pattern searches the same way.
pub open spec fn regex_helper_lines() -> Seq<(nat, Seq<char>)> {
    Seq::empty()
        .push((0nat, "import re"@))
        .push((0nat, ""@))
        .push((0nat, "def "@ + SNAIL_REGEX_SEARCH@ + "(value, pattern):"@))
        .push((1nat, "found = re.search(pattern, value)"@))
        .push((1nat, "if found is None:"@))
        .push((2nat, "return ()"@))
        .push((1nat, "return (found.group(0),) + found.groups()"@))
        .push((0nat, ""@))
        .push((0nat, "class "@ + SNAIL_REGEX_CLASS@ + ":"@))
        .push((1nat, "def __init__(self, compiled):"@))
        .push((2nat, "self.compiled = compiled"@))
        .push((1nat, ""@))
        .push((1nat, "def search(self, value):"@))
        .push((2nat, "found = self.compiled.search(value)"@))
        .push((2nat, "if found is None:"@))
        .push((3nat, "return ()"@))
        .push((2nat, "return (found.group(0),) + found.groups()"@))
        .push((1nat, ""@))
        .push((1nat, "def __contains__(self, value):"@))
        .push((2nat, "return self.compiled.search(value) is not None"@))
        .push((1nat, ""@))
        .push((1nat, "def __getattr__(self, name):"@))
        .push((2nat, "return getattr(self.compiled, name)"@))
        .push((0nat, ""@))
        .push((0nat, "def "@ + SNAIL_REGEX_COMPILE@ + "(pattern):"@))
        .push((1nat, "return "@ + SNAIL_REGEX_CLASS@ + "(re.compile(pattern))"@))
}

/// The subprocess capture and status classes.
pub open spec fn subprocess_helper_lines() -> Seq<(nat, Seq<char>)> {
    Seq::empty()
        .push((0nat, "import subprocess"@))
        .push((0nat, ""@))
        .push((0nat, "class "@ + SNAIL_SUBPROCESS_CAPTURE_CLASS@ + ":"@))
        .push((1nat, "def __init__(self, cmd):"@))
        .push((2nat, "self.cmd = cmd"@))
        .push((1nat, ""@))
        .push((1nat, "def __call__(self, input_data=None):"@))
        .push((2nat, "try:"@))
        .push((3nat, "if input_data is None:"@))
        .push((4nat, "# No stdin - run normally"@))
        .push((4nat, "completed = subprocess.run(self.cmd, shell=True, check=True, text=True, stdout=subprocess.PIPE)"@))
        .push((3nat, "else:"@))
        .push((4nat, "# Pipe input to stdin"@))
        .push((4nat, "if not isinstance(input_data, (str, bytes)):"@))
        .push((5nat, "input_data = str(input_data)"@))
        .push((4nat, "completed = subprocess.run(self.cmd, shell=True, check=True, text=True, input=input_data, stdout=subprocess.PIPE)"@))
        .push((3nat, "return completed.stdout.rstrip('\\n')"@))
        .push((2nat, "except subprocess.CalledProcessError as exc:"@))
        .push((3nat, "def __fallback(exc=exc):"@))
        .push((4nat, "raise exc"@))
        .push((3nat, "exc.__fallback__ = __fallback"@))
        .push((3nat, "raise"@))
        .push((0nat, ""@))
        .push((0nat, "class "@ + SNAIL_SUBPROCESS_STATUS_CLASS@ + ":"@))
        .push((1nat, "def __init__(self, cmd):"@))
        .push((2nat, "self.cmd = cmd"@))
        .push((1nat, ""@))
        .push((1nat, "def __call__(self, input_data=None):"@))
        .push((2nat, "try:"@))
        .push((3nat, "if input_data is None:"@))
        .push((4nat, "# No stdin - run normally"@))
        .push((4nat, "subprocess.run(self.cmd, shell=True, check=True)"@))
        .push((3nat, "else:"@))
        .push((4nat, "# Pipe input to stdin"@))
        .push((4nat, "if not isinstance(input_data, (str, bytes)):"@))
        .push((5nat, "input_data = str(input_data)"@))
        .push((4nat, "subprocess.run(self.cmd, shell=True, check=True, text=True, input=input_data)"@))
        .push((3nat, "return 0"@))
        .push((2nat, "except subprocess.CalledProcessError as exc:"@))
        .push((3nat, "def __fallback(exc=exc):"@))
        .push((4nat, "return exc.returncode"@))
        .push((3nat, "exc.__fallback__ = __fallback"@))
        .push((3nat, "raise"@))
}

/// The start of the jmespath package, which is built only when it is not
/// installed.
pub open spec fn jmespath_header_lines() -> Seq<(nat, Seq<char>)> {
    Seq::empty()
        .push((0nat, "# Vendored jmespath library (embedded to avoid external dependency)"@))
        .push((0nat, "import sys"@))
        .push((0nat, "if 'jmespath' not in sys.modules:"@))
        .push((1nat, "import types"@))
        .push((1nat, ""@))
        .push((1nat, "__jmespath = types.ModuleType('jmespath')"@))
        .push((1nat, "__jmespath.__package__ = 'jmespath'"@))
        .push((1nat, "__jmespath.__path__ = []"@))
        .push((1nat, "sys.modules['jmespath'] = __jmespath"@))
        .push((1nat, ""@))
}

/// One jmespath submodule, compiled from its escaped source and registered
/// under its name.
pub open spec fn jmespath_module_lines(name: Seq<char>, comment: Seq<char>, source: Seq<char>) -> Seq<
    (nat, Seq<char>),
> {
    Seq::empty()
        .push((1nat, comment))
        .push((1nat, "__mod = types.ModuleType('jmespath."@ + name + "')"@))
        .push((1nat, "__mod.__package__ = 'jmespath'"@))
        .push((1nat, "exec(compile(\""@ + escape_py(source) + "\", 'jmespath/"@ + name + ".py', 'exec'), __mod.__dict__)"@))
        .push((1nat, "sys.modules['jmespath."@ + name + "'] = __mod"@))
        .push((1nat, "__jmespath."@ + name + " = __mod"@))
        .push((1nat, ""@))
}

/// The jmespath package module itself, and the end of the package.
pub open spec fn jmespath_init_lines(source: Seq<char>) -> Seq<(nat, Seq<char>)> {
    Seq::empty()
        .push((1nat, "# Inject jmespath main module"@))
        .push((1nat, "exec(compile(\""@ + escape_py(source) + "\", 'jmespath/__init__.py', 'exec'), __jmespath.__dict__)"@))
        .push((1nat, ""@))
        .push((0nat, ""@))
}

/// The jmespath package, its submodules in the order in which they import
/// each other.
pub open spec fn jmespath_text(k: nat, j: JmespathSources) -> Seq<char> {
    lines_text(k, jmespath_header_lines())
        + lines_text(k, jmespath_module_lines("compat"@, "# Inject jmespath.compat (base module)"@, j.compat@))
        + lines_text(k, jmespath_module_lines("exceptions"@, "# Inject jmespath.exceptions"@, j.exceptions@))
        + lines_text(k, jmespath_module_lines("ast"@, "# Inject jmespath.ast"@, j.ast@))
        + lines_text(k, jmespath_module_lines("lexer"@, "# Inject jmespath.lexer"@, j.lexer@))
        + lines_text(k, jmespath_module_lines("functions"@, "# Inject jmespath.functions"@, j.functions@))
        + lines_text(k, jmespath_module_lines("visitor"@, "# Inject jmespath.visitor"@, j.visitor@))
        + lines_text(k, jmespath_module_lines("parser"@, "# Inject jmespath.parser"@, j.parser@))
        + lines_text(k, jmespath_init_lines(j.init@))
}

/// The structured-accessor and JSON helpers that follow the jmespath package.
pub open spec fn structured_helper_lines() -> Seq<(nat, Seq<char>)> {
    Seq::empty()
        .push((0nat, "import jmespath"@))
        .push((0nat, "import json as _json"@))
        .push((0nat, "import sys as _sys"@))
        .push((0nat, ""@))
        .push((0nat, "class "@ + SNAIL_STRUCTURED_ACCESSOR_CLASS@ + ":"@))
        .push((1nat, "def __init__(self, query):"@))
        .push((2nat, "self.query = query"@))
        .push((1nat, ""@))
        .push((1nat, "def __call__(self, obj):"@))
        .push((2nat, "if not hasattr(obj, '__structured__'):"@))
        .push((3nat, "raise TypeError(f\"Pipeline target must implement __structured__, got {type(obj).__name__}\")"@))
        .push((2nat, "return obj.__structured__(self.query)"@))
        .push((0nat, ""@))
        .push((0nat, "class "@ + SNAIL_JSON_OBJECT_CLASS@ + ":"@))
        .push((1nat, "def __init__(self, data):"@))
        .push((2nat, "self.data = data"@))
        .push((1nat, ""@))
        .push((1nat, "def __structured__(self, query):"@))
        .push((2nat, "return jmespath.search(query, self.data)"@))
        .push((1nat, ""@))
        .push((1nat, "def __repr__(self):"@))
        .push((2nat, "return f\"__SnailJsonObject({self.data!r})\""@))
        .push((0nat, ""@))
}

/// The `js` function: JSON text, JSON lines (as a list), a file or a path,
/// or a value that is already JSON, wrapped for structured queries.
pub open spec fn js_helper_lines() -> Seq<(nat, Seq<char>)> {
    Seq::empty()
        .push((0nat, "def "@ + SNAIL_JSON_FUNCTION@ + "(input=_sys.stdin):"@))
        .push((1nat, "\"\"\"Parse JSON, or JSON lines into a list, from text, a file or a path.\"\"\""@))
        .push((1nat, "if isinstance(input, (dict, list, int, float, bool, type(None))):"@))
        .push((2nat, "return "@ + SNAIL_JSON_OBJECT_CLASS@ + "(input)"@))
        .push((1nat, "if isinstance(input, str):"@))
        .push((2nat, "text = input"@))
        .push((1nat, "elif hasattr(input, 'read'):"@))
        .push((2nat, "text = input.read()"@))
        .push((2nat, "if isinstance(text, bytes):"@))
        .push((3nat, "text = text.decode('utf-8')"@))
        .push((1nat, "else:"@))
        .push((2nat, "raise TypeError(f\"js() input must be JSON-compatible, got {type(input).__name__}\")"@))
        .push((1nat, "try:"@))
        .push((2nat, "data = _json.loads(text)"@))
        .push((1nat, "except _json.JSONDecodeError:"@))
        .push((2nat, "rows = [row for row in text.splitlines() if row.strip()]"@))
        .push((2nat, "if len(rows) > 1:"@))
        .push((3nat, "data = [_json.loads(row) for row in rows]"@))
        .push((2nat, "elif isinstance(input, str):"@))
        .push((3nat, "with open(input, 'r') as f:"@))
        .push((4nat, "return "@ + SNAIL_JSON_FUNCTION@ + "(f)"@))
        .push((2nat, "else:"@))
        .push((3nat, "raise"@))
        .push((1nat, "return "@ + SNAIL_JSON_OBJECT_CLASS@ + "(data)"@))
}

/// The helper of `h` as it is written `k` levels in: the structured
/// accessor brings the jmespath package first.
pub open spec fn helper_text(h: Helper, k: nat, j: JmespathSources) -> Seq<char> {
    match h {
        Helper::Try => try_helper_text(k),
        Helper::Regex => regex_helper_text(k),
        Helper::Subprocess => subprocess_helper_text(k),
        Helper::Structured => structured_helper_text(k, j),
    }
}

#[verifier::opaque]
pub open spec fn try_helper_text(k: nat) -> Seq<char> {
    lines_text(k, try_helper_lines())
}

#[verifier::opaque]
pub open spec fn regex_helper_text(k: nat) -> Seq<char> {
    lines_text(k, regex_helper_lines())
}

#[verifier::opaque]
pub open spec fn subprocess_helper_text(k: nat) -> Seq<char> {
    lines_text(k, subprocess_helper_lines())
}

#[verifier::opaque]
pub open spec fn structured_helper_text(k: nat, j: JmespathSources) -> Seq<char> {
    jmespath_text(k, j) + lines_text(k, structured_helper_lines()) + lines_text(k, js_helper_lines())
}

/// An empty line, `k` levels in.
pub open spec fn blank_line(k: nat) -> Seq<char> {
    line_text(k, ""@)
}

/// What precedes the statements of a module: each helper it uses, in a
/// fixed order and separated by empty lines, then an empty line before a
/// non-empty body; all `k` levels in.
pub open spec fn prelude_text(k: nat, m: PyModule, j: JmespathSources) -> Seq<char> {
    let t = module_uses(m, Helper::Try);
    let r = module_uses(m, Helper::Regex);
    let p = module_uses(m, Helper::Subprocess);
    let s = module_uses(m, Helper::Structured);
    section(k, t, false, helper_text(Helper::Try, k, j)) + section(k, r, t, helper_text(Helper::Regex, k, j))
        + section(k, p, t || r, helper_text(Helper::Subprocess, k, j)) + section(
        k,
        s,
        t || r || p,
        helper_text(Helper::Structured, k, j),
    ) + section(k, (t || r || p || s) && m.body.len() > 0, false, blank_line(k))
}

/// `text` when `present`, after an empty line when `separated`; nothing
/// otherwise.
pub open spec fn section(k: nat, present: bool, separated: bool, text: Seq<char>) -> Seq<char> {
    if present {
        (if separated {
            blank_line(k)
        } else {
            Seq::empty()
        }) + text
    } else {
        Seq::empty()
    }
}

/// The lines that keep the value of a final bare expression and print it:
/// as it is when it is a string, pretty-printed when it is not `None`.
pub open spec fn auto_print_lines(k: nat, code: Seq<char>) -> Seq<char> {
    line_text(k, "__snail_last_result = "@ + code) + line_text(
        k,
        "if isinstance(__snail_last_result, str):"@,
    ) + line_text(k + 1, "print(__snail_last_result)"@) + line_text(
        k,
        "elif __snail_last_result is not None:"@,
    ) + line_text(k + 1, "import pprint"@) + line_text(k + 1, "pprint.pprint(__snail_last_result)"@)
}

/// The last statement of a module whose result is printed.
pub open spec fn last_stmt_text(k: nat, s: PyStmt) -> Seq<char> {
    match s {
        PyStmt::Expr { value, semicolon_terminated, .. } => if semicolon_terminated {
            stmt_text(s, k)
        } else {
            auto_print_lines(k, expr_text(value))
        },
        _ => stmt_text(s, k),
    }
}

/// The statements of a module; with `auto_print_last`, a final expression
/// statement without a semicolon prints its value.
pub open spec fn body_text(k: nat, m: PyModule, auto_print_last: bool) -> Seq<char> {
    if auto_print_last && m.body.len() > 0 {
        stmts_text(m.body@, k, m.body.len() - 1) + last_stmt_text(k, m.body@.last())
    } else {
        stmts_text(m.body@, k, m.body.len() as int)
    }
}

/// The Python source of a module.
pub open spec fn python_text(m: PyModule, auto_print_last: bool, j: JmespathSources) -> Seq<char> {
    prelude_text(0, m, j) + body_text(0, m, auto_print_last)
}

/// The deepest level, counted from where they are written, of the lines
/// of the runtime helpers.
pub const HELPER_DEPTH: usize = 5;

/// Whether no line of `lines` is more than `m` levels in.
pub open spec fn levels_within(lines: Seq<(nat, Seq<char>)>, m: nat) -> bool {
    forall|i: int| 0 <= i < lines.len() ==> #[trigger] lines[i].0 <= m
}

fn add_line(lines: &mut Vec<(usize, String)>, indent: usize, text: &str)
    requires
        indent <= HELPER_DEPTH,
        levels_within(lines_view(*old(lines)), HELPER_DEPTH as nat),
    ensures
        lines_view(*final(lines)) == lines_view(*old(lines)).push((indent as nat, text@)),
        levels_within(lines_view(*final(lines)), HELPER_DEPTH as nat),
{
    let ghost before = lines_view(*lines);
    lines.push((indent, String::from_str(text)));
    assert(lines_view(*lines) =~= before.push((indent as nat, text@)));
}

fn add_text(lines: &mut Vec<(usize, String)>, indent: usize, text: String)
    requires
        indent <= HELPER_DEPTH,
        levels_within(lines_view(*old(lines)), HELPER_DEPTH as nat),
    ensures
        lines_view(*final(lines)) == lines_view(*old(lines)).push((indent as nat, text@)),
        levels_within(lines_view(*final(lines)), HELPER_DEPTH as nat),
{
    let ghost before = lines_view(*lines);
    let ghost t = text@;
    lines.push((indent, text));
    assert(lines_view(*lines) =~= before.push((indent as nat, t)));
}

fn concat2(a: &str, b: &str) -> (r: String)
    ensures
        r@ == a@ + b@,
{
    let mut out = String::from_str(a);
    push_str(&mut out, b);
    out
}

fn concat3(a: &str, b: &str, c: &str) -> (r: String)
    ensures
        r@ == a@ + b@ + c@,
{
    let mut out = String::from_str(a);
    push_str(&mut out, b);
    push_str(&mut out, c);
    out
}

/// Python source escaped for a double-quoted string literal.
pub fn escape_py_source(source: &str) -> (r: String)
    ensures
        r@ == escape_py(source@),
{
    let chars = chars_of(source);
    let mut out = String::new();
    let mut i: usize = 0;
    while i < chars.len()
        invariant
            i <= chars.len(),
            chars@ == source@,
            out@ == escape_py(chars@.take(i as int)),
        decreases chars.len() - i,
    {
        let c = chars[i];
        let ghost before = out@;
        if c == '\\' {
            push_char(&mut out, '\\');
            push_char(&mut out, '\\');
        } else if c == '"' {
            push_char(&mut out, '\\');
            push_char(&mut out, '"');
        } else if c == '\n' {
            push_char(&mut out, '\\');
            push_char(&mut out, 'n');
        } else {
            push_char(&mut out, c);
        }
        assert(chars@.take(i + 1).drop_last() =~= chars@.take(i as int));
        assert(out@ =~= escape_py(chars@.take(i + 1)));
        i += 1;
    }
    assert(chars@.take(i as int) =~= source@);
    out
}

fn try_helper_source() -> (r: Vec<(usize, String)>)
    ensures
        lines_view(r) == try_helper_lines(),
        levels_within(lines_view(r), HELPER_DEPTH as nat),
{
    let mut lines: Vec<(usize, String)> = Vec::new();
    add_text(&mut lines, 0, concat3("def ", SNAIL_TRY_HELPER, "(expr_fn, fallback_fn=None):"));
    add_line(&mut lines, 1, "try:");
    add_line(&mut lines, 2, "return expr_fn()");
    add_text(&mut lines, 1, concat3("except Exception as ", SNAIL_EXCEPTION_VAR, ":"));
    add_line(&mut lines, 2, "if fallback_fn is None:");
    add_text(&mut lines, 3, concat3("fallback_member = getattr(", SNAIL_EXCEPTION_VAR, ", \"__fallback__\", None)"));
    add_line(&mut lines, 3, "if callable(fallback_member):");
    add_line(&mut lines, 4, "return fallback_member()");
    add_line(&mut lines, 3, "return None");
    add_text(&mut lines, 2, concat3("return fallback_fn(", SNAIL_EXCEPTION_VAR, ")"));
    lines
}

fn regex_helper_source() -> (r: Vec<(usize, String)>)
    ensures
        lines_view(r) == regex_helper_lines(),
        levels_within(lines_view(r), HELPER_DEPTH as nat),
{
    let mut lines: Vec<(usize, String)> = Vec::new();
    add_line(&mut lines, 0, "import re");
    add_line(&mut lines, 0, "");
    add_text(&mut lines, 0, concat3("def ", SNAIL_REGEX_SEARCH, "(value, pattern):"));
    add_line(&mut lines, 1, "found = re.search(pattern, value)");
    add_line(&mut lines, 1, "if found is None:");
    add_line(&mut lines, 2, "return ()");
    add_line(&mut lines, 1, "return (found.group(0),) + found.groups()");
    add_line(&mut lines, 0, "");
    add_text(&mut lines, 0, concat3("class ", SNAIL_REGEX_CLASS, ":"));
    add_line(&mut lines, 1, "def __init__(self, compiled):");
    add_line(&mut lines, 2, "self.compiled = compiled");
    add_line(&mut lines, 1, "");
    add_line(&mut lines, 1, "def search(self, value):");
    add_line(&mut lines, 2, "found = self.compiled.search(value)");
    add_line(&mut lines, 2, "if found is None:");
    add_line(&mut lines, 3, "return ()");
    add_line(&mut lines, 2, "return (found.group(0),) + found.groups()");
    add_line(&mut lines, 1, "");
    add_line(&mut lines, 1, "def __contains__(self, value):");
    add_line(&mut lines, 2, "return self.compiled.search(value) is not None");
    add_line(&mut lines, 1, "");
    add_line(&mut lines, 1, "def __getattr__(self, name):");
    add_line(&mut lines, 2, "return getattr(self.compiled, name)");
    add_line(&mut lines, 0, "");
    add_text(&mut lines, 0, concat3("def ", SNAIL_REGEX_COMPILE, "(pattern):"));
    add_text(&mut lines, 1, concat3("return ", SNAIL_REGEX_CLASS, "(re.compile(pattern))"));
    lines
}

fn subprocess_helper_source() -> (r: Vec<(usize, String)>)
    ensures
        lines_view(r) == subprocess_helper_lines(),
        levels_within(lines_view(r), HELPER_DEPTH as nat),
{
    let mut lines: Vec<(usize, String)> = Vec::new();
    add_line(&mut lines, 0, "import subprocess");
    add_line(&mut lines, 0, "");
    add_text(&mut lines, 0, concat3("class ", SNAIL_SUBPROCESS_CAPTURE_CLASS, ":"));
    add_line(&mut lines, 1, "def __init__(self, cmd):");
    add_line(&mut lines, 2, "self.cmd = cmd");
    add_line(&mut lines, 1, "");
    add_line(&mut lines, 1, "def __call__(self, input_data=None):");
    add_line(&mut lines, 2, "try:");
    add_line(&mut lines, 3, "if input_data is None:");
    add_line(&mut lines, 4, "# No stdin - run normally");
    add_line(&mut lines, 4, "completed = subprocess.run(self.cmd, shell=True, check=True, text=True, stdout=subprocess.PIPE)");
    add_line(&mut lines, 3, "else:");
    add_line(&mut lines, 4, "# Pipe input to stdin");
    add_line(&mut lines, 4, "if not isinstance(input_data, (str, bytes)):");
    add_line(&mut lines, 5, "input_data = str(input_data)");
    add_line(&mut lines, 4, "completed = subprocess.run(self.cmd, shell=True, check=True, text=True, input=input_data, stdout=subprocess.PIPE)");
    add_line(&mut lines, 3, "return completed.stdout.rstrip('\\n')");
    add_line(&mut lines, 2, "except subprocess.CalledProcessError as exc:");
    add_line(&mut lines, 3, "def __fallback(exc=exc):");
    add_line(&mut lines, 4, "raise exc");
    add_line(&mut lines, 3, "exc.__fallback__ = __fallback");
    add_line(&mut lines, 3, "raise");
    add_line(&mut lines, 0, "");
    add_text(&mut lines, 0, concat3("class ", SNAIL_SUBPROCESS_STATUS_CLASS, ":"));
    add_line(&mut lines, 1, "def __init__(self, cmd):");
    add_line(&mut lines, 2, "self.cmd = cmd");
    add_line(&mut lines, 1, "");
    add_line(&mut lines, 1, "def __call__(self, input_data=None):");
    add_line(&mut lines, 2, "try:");
    add_line(&mut lines, 3, "if input_data is None:");
    add_line(&mut lines, 4, "# No stdin - run normally");
    add_line(&mut lines, 4, "subprocess.run(self.cmd, shell=True, check=True)");
    add_line(&mut lines, 3, "else:");
    add_line(&mut lines, 4, "# Pipe input to stdin");
    add_line(&mut lines, 4, "if not isinstance(input_data, (str, bytes)):");
    add_line(&mut lines, 5, "input_data = str(input_data)");
    add_line(&mut lines, 4, "subprocess.run(self.cmd, shell=True, check=True, text=True, input=input_data)");
    add_line(&mut lines, 3, "return 0");
    add_line(&mut lines, 2, "except subprocess.CalledProcessError as exc:");
    add_line(&mut lines, 3, "def __fallback(exc=exc):");
    add_line(&mut lines, 4, "return exc.returncode");
    add_line(&mut lines, 3, "exc.__fallback__ = __fallback");
    add_line(&mut lines, 3, "raise");
    lines
}

fn jmespath_header_source() -> (r: Vec<(usize, String)>)
    ensures
        lines_view(r) == jmespath_header_lines(),
        levels_within(lines_view(r), HELPER_DEPTH as nat),
{
    let mut lines: Vec<(usize, String)> = Vec::new();
    add_line(&mut lines, 0, "# Vendored jmespath library (embedded to avoid external dependency)");
    add_line(&mut lines, 0, "import sys");
    add_line(&mut lines, 0, "if 'jmespath' not in sys.modules:");
    add_line(&mut lines, 1, "import types");
    add_line(&mut lines, 1, "");
    add_line(&mut lines, 1, "__jmespath = types.ModuleType('jmespath')");
    add_line(&mut lines, 1, "__jmespath.__package__ = 'jmespath'");
    add_line(&mut lines, 1, "__jmespath.__path__ = []");
    add_line(&mut lines, 1, "sys.modules['jmespath'] = __jmespath");
    add_line(&mut lines, 1, "");
    lines
}

fn jmespath_module_source(name: &str, comment: &str, source: &str) -> (r: Vec<(usize, String)>)
    ensures
        lines_view(r) == jmespath_module_lines(name@, comment@, source@),
        levels_within(lines_view(r), HELPER_DEPTH as nat),
{
    let escaped = escape_py_source(source);
    let mut lines: Vec<(usize, String)> = Vec::new();
    add_line(&mut lines, 1, comment);
    add_text(&mut lines, 1, concat3("__mod = types.ModuleType('jmespath.", name, "')"));
    add_line(&mut lines, 1, "__mod.__package__ = 'jmespath'");
    let head = concat3("exec(compile(\"", escaped.as_str(), "\", 'jmespath/");
    add_text(&mut lines, 1, concat3(head.as_str(), name, ".py', 'exec'), __mod.__dict__)"));
    add_text(&mut lines, 1, concat3("sys.modules['jmespath.", name, "'] = __mod"));
    add_text(&mut lines, 1, concat3("__jmespath.", name, " = __mod"));
    add_line(&mut lines, 1, "");
    lines
}

fn jmespath_init_source(source: &str) -> (r: Vec<(usize, String)>)
    ensures
        lines_view(r) == jmespath_init_lines(source@),
        levels_within(lines_view(r), HELPER_DEPTH as nat),
{
    let escaped = escape_py_source(source);
    let mut lines: Vec<(usize, String)> = Vec::new();
    add_line(&mut lines, 1, "# Inject jmespath main module");
    add_text(
        &mut lines,
        1,
        concat3("exec(compile(\"", escaped.as_str(), "\", 'jmespath/__init__.py', 'exec'), __jmespath.__dict__)"),
    );
    add_line(&mut lines, 1, "");
    add_line(&mut lines, 0, "");
    lines
}

fn structured_helper_source() -> (r: Vec<(usize, String)>)
    ensures
        lines_view(r) == structured_helper_lines(),
        levels_within(lines_view(r), HELPER_DEPTH as nat),
{
    let mut lines: Vec<(usize, String)> = Vec::new();
    add_line(&mut lines, 0, "import jmespath");
    add_line(&mut lines, 0, "import json as _json");
    add_line(&mut lines, 0, "import sys as _sys");
    add_line(&mut lines, 0, "");
    add_text(&mut lines, 0, concat3("class ", SNAIL_STRUCTURED_ACCESSOR_CLASS, ":"));
    add_line(&mut lines, 1, "def __init__(self, query):");
    add_line(&mut lines, 2, "self.query = query");
    add_line(&mut lines, 1, "");
    add_line(&mut lines, 1, "def __call__(self, obj):");
    add_line(&mut lines, 2, "if not hasattr(obj, '__structured__'):");
    add_line(&mut lines, 3, "raise TypeError(f\"Pipeline target must implement __structured__, got {type(obj).__name__}\")");
    add_line(&mut lines, 2, "return obj.__structured__(self.query)");
    add_line(&mut lines, 0, "");
    add_text(&mut lines, 0, concat3("class ", SNAIL_JSON_OBJECT_CLASS, ":"));
    add_line(&mut lines, 1, "def __init__(self, data):");
    add_line(&mut lines, 2, "self.data = data");
    add_line(&mut lines, 1, "");
    add_line(&mut lines, 1, "def __structured__(self, query):");
    add_line(&mut lines, 2, "return jmespath.search(query, self.data)");
    add_line(&mut lines, 1, "");
    add_line(&mut lines, 1, "def __repr__(self):");
    add_line(&mut lines, 2, "return f\"__SnailJsonObject({self.data!r})\"");
    add_line(&mut lines, 0, "");
    lines
}

fn js_helper_source() -> (r: Vec<(usize, String)>)
    ensures
        lines_view(r) == js_helper_lines(),
        levels_within(lines_view(r), HELPER_DEPTH as nat),
{
    let mut lines: Vec<(usize, String)> = Vec::new();
    add_text(&mut lines, 0, concat3("def ", SNAIL_JSON_FUNCTION, "(input=_sys.stdin):"));
    add_line(&mut lines, 1, "\"\"\"Parse JSON, or JSON lines into a list, from text, a file or a path.\"\"\"");
    add_line(&mut lines, 1, "if isinstance(input, (dict, list, int, float, bool, type(None))):");
    add_text(&mut lines, 2, concat3("return ", SNAIL_JSON_OBJECT_CLASS, "(input)"));
    add_line(&mut lines, 1, "if isinstance(input, str):");
    add_line(&mut lines, 2, "text = input");
    add_line(&mut lines, 1, "elif hasattr(input, 'read'):");
    add_line(&mut lines, 2, "text = input.read()");
    add_line(&mut lines, 2, "if isinstance(text, bytes):");
    add_line(&mut lines, 3, "text = text.decode('utf-8')");
    add_line(&mut lines, 1, "else:");
    add_line(&mut lines, 2, "raise TypeError(f\"js() input must be JSON-compatible, got {type(input).__name__}\")");
    add_line(&mut lines, 1, "try:");
    add_line(&mut lines, 2, "data = _json.loads(text)");
    add_line(&mut lines, 1, "except _json.JSONDecodeError:");
    add_line(&mut lines, 2, "rows = [row for row in text.splitlines() if row.strip()]");
    add_line(&mut lines, 2, "if len(rows) > 1:");
    add_line(&mut lines, 3, "data = [_json.loads(row) for row in rows]");
    add_line(&mut lines, 2, "elif isinstance(input, str):");
    add_line(&mut lines, 3, "with open(input, 'r') as f:");
    add_text(&mut lines, 4, concat3("return ", SNAIL_JSON_FUNCTION, "(f)"));
    add_line(&mut lines, 2, "else:");
    add_line(&mut lines, 3, "raise");
    add_text(&mut lines, 1, concat3("return ", SNAIL_JSON_OBJECT_CLASS, "(data)"));
    lines
}

impl PythonWriter {
    /// Writes lines at their own indentation levels, counted from the
    /// current one.
    fn write_lines(&mut self, lines: &Vec<(usize, String)>)
        requires
            old(self).indent + HELPER_DEPTH <= usize::MAX,
            levels_within(lines_view(*lines), HELPER_DEPTH as nat),
        ensures
            final(self).output@ == old(self).output@ + lines_text(old(self).indent as nat, lines_view(*lines)),
            final(self).indent == old(self).indent,
    {
        let ghost start = self.output@;
        let ghost all = lines_view(*lines);
        let base = self.indent;
        let mut i: usize = 0;
        while i < lines.len()
            invariant
                i <= lines.len(),
                all == lines_view(*lines),
                levels_within(all, HELPER_DEPTH as nat),
                base + HELPER_DEPTH <= usize::MAX,
                self.indent == base,
                self.output@ == start + lines_text(base as nat, all.take(i as int)),
            decreases lines.len() - i,
        {
            assert(all[i as int].0 <= HELPER_DEPTH);
            self.indent = base + lines[i].0;
            self.write_line(lines[i].1.as_str());
            self.indent = base;
            assert(all.take(i + 1).drop_last() =~= all.take(i as int));
            assert(all.take(i + 1).last() == all[i as int]);
            i += 1;
        }
        assert(all.take(i as int) =~= all);
    }

    fn write_snail_try_helper(&mut self)
        requires
            old(self).indent + HELPER_DEPTH <= usize::MAX,
        ensures
            final(self).output@ == old(self).output@ + try_helper_text(old(self).indent as nat),
            final(self).indent == old(self).indent,
    {
        proof {
            reveal(try_helper_text);
        }
        self.write_lines(&try_helper_source());
    }

    fn write_snail_regex_helpers(&mut self)
        requires
            old(self).indent + HELPER_DEPTH <= usize::MAX,
        ensures
            final(self).output@ == old(self).output@ + regex_helper_text(old(self).indent as nat),
            final(self).indent == old(self).indent,
    {
        proof {
            reveal(regex_helper_text);
        }
        self.write_lines(&regex_helper_source());
    }

    fn write_snail_subprocess_helpers(&mut self)
        requires
            old(self).indent + HELPER_DEPTH <= usize::MAX,
        ensures
            final(self).output@ == old(self).output@ + subprocess_helper_text(old(self).indent as nat),
            final(self).indent == old(self).indent,
    {
        proof {
            reveal(subprocess_helper_text);
        }
        self.write_lines(&subprocess_helper_source());
    }

    /// Writes the jmespath package, built from its sources unless it is
    /// already installed.
    fn write_vendored_jmespath(&mut self, jmespath: &JmespathSources)
        requires
            old(self).indent + HELPER_DEPTH <= usize::MAX,
        ensures
            final(self).output@ == old(self).output@ + jmespath_text(old(self).indent as nat, *jmespath),
            final(self).output@ == old(self).output@ + lines_text(old(self).indent as nat, jmespath_lines(*jmespath)),
            exec_line_count(jmespath_lines(*jmespath)) == 8,
            final(self).indent == old(self).indent,
    {
        proof {
            lemma_jmespath_written_whole(self.indent as nat, *jmespath);
        }
        let ghost start = self.output@;
        self.write_lines(&jmespath_header_source());
        self.write_lines(
            &jmespath_module_source("compat", "# Inject jmespath.compat (base module)", jmespath.compat.as_str()),
        );
        self.write_lines(
            &jmespath_module_source("exceptions", "# Inject jmespath.exceptions", jmespath.exceptions.as_str()),
        );
        self.write_lines(&jmespath_module_source("ast", "# Inject jmespath.ast", jmespath.ast.as_str()));
        self.write_lines(&jmespath_module_source("lexer", "# Inject jmespath.lexer", jmespath.lexer.as_str()));
        self.write_lines(
            &jmespath_module_source("functions", "# Inject jmespath.functions", jmespath.functions.as_str()),
        );
        self.write_lines(
            &jmespath_module_source("visitor", "# Inject jmespath.visitor", jmespath.visitor.as_str()),
        );
        self.write_lines(&jmespath_module_source("parser", "# Inject jmespath.parser", jmespath.parser.as_str()));
        self.write_lines(&jmespath_init_source(jmespath.init.as_str()));
        assert(self.output@ =~= start + jmespath_text(self.indent as nat, *jmespath));
    }

    fn write_structured_accessor_helpers(&mut self, jmespath: &JmespathSources)
        requires
            old(self).indent + HELPER_DEPTH <= usize::MAX,
        ensures
            final(self).output@ == old(self).output@ + structured_helper_text(old(self).indent as nat, *jmespath),
            final(self).indent == old(self).indent,
    {
        proof {
            reveal(structured_helper_text);
        }
        let ghost start = self.output@;
        self.write_vendored_jmespath(jmespath);
        self.write_lines(&structured_helper_source());
        self.write_lines(&js_helper_source());
        assert(self.output@ =~= start + structured_helper_text(self.indent as nat, *jmespath));
    }

    /// Writes the statements of a module at the current level.
    fn write_module(&mut self, module: &PyModule)
        requires
            old(self).indent + module_depth(*module) <= usize::MAX,
        ensures
            final(self).output@ == old(self).output@ + stmts_text(
                module.body@,
                old(self).indent as nat,
                module.body.len() as int,
            ),
            final(self).indent == old(self).indent,
    {
        self.write_stmts(&module.body, module.body.len());
    }

    /// Writes the first `n` statements of a block at the current level.
    fn write_stmts(&mut self, body: &Vec<PyStmt>, n: usize)
        requires
            n <= body.len(),
            old(self).indent + stmts_depth(body@, body.len() as int) <= usize::MAX,
        ensures
            final(self).output@ == old(self).output@ + stmts_text(body@, old(self).indent as nat, n as int),
            final(self).indent == old(self).indent,
    {
        let ghost start = self.output@;
        let ghost k = self.indent;
        let mut i: usize = 0;
        while i < n
            invariant
                i <= n,
                n <= body.len(),
                self.indent == k,
                k + stmts_depth(body@, body.len() as int) <= usize::MAX,
                self.output@ == start + stmts_text(body@, k as nat, i as int),
            decreases n - i,
        {
            proof {
                lemma_stmts_depth(body@, body.len() as int, i as int);
            }
            self.write_stmt(&body[i]);
            i += 1;
        }
    }
}

impl PythonWriter {
    /// Writes the lines that keep the value of `value` and print it.
    fn write_auto_print(&mut self, value: &PyExpr)
        requires
            old(self).indent + 1 <= usize::MAX,
        ensures
            final(self).output@ == old(self).output@ + auto_print_lines(old(self).indent as nat, expr_text(*value)),
            final(self).indent == old(self).indent,
    {
        let ghost start = self.output@;
        let base = self.indent;
        let code = expr_source(value);
        self.write_string_line(concat2("__snail_last_result = ", code.as_str()));
        self.write_line("if isinstance(__snail_last_result, str):");
        self.indent = base + 1;
        self.write_line("print(__snail_last_result)");
        self.indent = base;
        self.write_line("elif __snail_last_result is not None:");
        self.indent = base + 1;
        self.write_line("import pprint");
        self.write_line("pprint.pprint(__snail_last_result)");
        self.indent = base;
        assert(self.output@ =~= start + auto_print_lines(base as nat, expr_text(*value)));
    }
}

impl PythonWriter {
    /// Writes the helpers that a module calls, separated by empty lines, and
    /// an empty line before a non-empty body.
    #[verifier::spinoff_prover]
    #[verifier::rlimit(40)]
    fn write_prelude(&mut self, module: &PyModule, jmespath: &JmespathSources)
        requires
            old(self).indent + HELPER_DEPTH <= usize::MAX,
        ensures
            final(self).output@ == old(self).output@ + prelude_text(old(self).indent as nat, *module, *jmespath),
            final(self).indent == old(self).indent,
    {
        let ghost start = self.output@;
        let ghost j = *jmespath;
        let ghost k: nat = self.indent as nat;
        let uses_try = module_uses_snail_try(module);
        let uses_regex = module_uses_snail_regex(module);
        let uses_subprocess = module_uses_snail_subprocess(module);
        let uses_structured = module_uses_structured_accessor(module);
        if uses_try {
            self.write_snail_try_helper();
        }
        let ghost a = self.output@;
        assert(a == start + section(k, uses_try, false, helper_text(Helper::Try, k, j)));
        if uses_regex {
            self.write_separator(uses_try);
            self.write_snail_regex_helpers();
        }
        let ghost b = self.output@;
        assert(b == a + section(k, uses_regex, uses_try, helper_text(Helper::Regex, k, j)));
        if uses_subprocess {
            self.write_separator(uses_try || uses_regex);
            self.write_snail_subprocess_helpers();
        }
        let ghost c = self.output@;
        assert(c == b + section(k, uses_subprocess, uses_try || uses_regex, helper_text(Helper::Subprocess, k, j)));
        if uses_structured {
            self.write_separator(uses_try || uses_regex || uses_subprocess);
            self.write_structured_accessor_helpers(jmespath);
        }
        let ghost d = self.output@;
        assert(d == c + section(
            k,
            uses_structured,
            uses_try || uses_regex || uses_subprocess,
            helper_text(Helper::Structured, k, j),
        ));
        let any = uses_try || uses_regex || uses_subprocess || uses_structured;
        self.write_separator(any && module.body.len() > 0);
        assert(self.output@ == d + section(k, any && module.body.len() > 0, false, blank_line(k)));
        assert(self.output@ =~= start + prelude_text(k, *module, *jmespath));
    }

    /// Writes an empty line when `separated`.
    fn write_separator(&mut self, separated: bool)
        ensures
            final(self).output@ == old(self).output@ + (if separated {
                blank_line(old(self).indent as nat)
            } else {
                Seq::empty()
            }),
            final(self).indent == old(self).indent,
    {
        let ghost start = self.output@;
        if separated {
            self.write_line("");
        }
        assert(self.output@ =~= start + (if separated {
            blank_line(self.indent as nat)
        } else {
            Seq::empty()
        }));
    }

    /// Writes the statements of a module, printing the value of a final bare
    /// expression when `auto_print_last` is set.
    fn write_body(&mut self, module: &PyModule, auto_print_last: bool)
        requires
            old(self).indent + module_depth(*module) <= usize::MAX,
            old(self).indent < usize::MAX,
        ensures
            final(self).output@ == old(self).output@ + body_text(old(self).indent as nat, *module, auto_print_last),
            final(self).indent == old(self).indent,
    {
        if auto_print_last && module.body.len() > 0 {
            let ghost start = self.output@;
            let last_idx = module.body.len() - 1;
            self.write_stmts(&module.body, last_idx);
            proof {
                lemma_stmts_depth(module.body@, module.body.len() as int, last_idx as int);
            }
            let ghost mid = self.output@;
            match &module.body[last_idx] {
                PyStmt::Expr { value, semicolon_terminated, .. } => {
                    if *semicolon_terminated {
                        self.write_stmt(&module.body[last_idx]);
                    } else {
                        self.write_auto_print(value);
                    }
                },
                _ => self.write_stmt(&module.body[last_idx]),
            }
            assert(module.body@.last() == module.body[last_idx as int]);
            assert(self.output@ =~= start + body_text(self.indent as nat, *module, auto_print_last));
        } else {
            self.write_module(module);
        }
    }
}

/// The Python source of a module, preceded by the runtime helpers it calls;
/// with `auto_print_last`, a final expression statement without a semicolon
/// prints its value.
pub fn python_source_with_auto_print(module: &PyModule, auto_print_last: bool, jmespath: &JmespathSources) -> (r: String)
    requires
        module_depth(*module) <= usize::MAX,
    ensures
        r@ == python_text(*module, auto_print_last, *jmespath),
{
    let mut writer = PythonWriter::new();
    writer.write_prelude(module, jmespath);
    writer.write_body(module, auto_print_last);
    let r = writer.finish();
    assert(r@ =~= python_text(*module, auto_print_last, *jmespath));
    r
}

/// The Python source of a module, preceded by the runtime helpers it calls.
pub fn python_source(module: &PyModule, jmespath: &JmespathSources) -> (r: String)
    requires
        module_depth(*module) <= usize::MAX,
    ensures
        r@ == python_text(*module, false, *jmespath),
{
    python_source_with_auto_print(module, false, jmespath)
}

// ---------------------------------------------------------------------------
// Laws of the written source.

/// Printing the last result changes nothing unless the module ends in an
/// expression statement that no semicolon ends.
pub proof fn lemma_auto_print_changes_only_bare_tail(m: PyModule, j: JmespathSources)
    requires
        !(m.body.len() > 0 && (m.body@.last() matches PyStmt::Expr { semicolon_terminated, .. }
            && !semicolon_terminated)),
    ensures
        python_text(m, true, j) == python_text(m, false, j),
{
    if m.body.len() > 0 {
        let n = m.body.len() as int;
        assert(last_stmt_text(0, m.body@.last()) == stmt_text(m.body@.last(), 0));
        assert(stmts_text(m.body@, 0, n) == stmts_text(m.body@, 0, n - 1) + stmt_text(m.body@[n - 1], 0));
    }
}

/// A module that calls no helper is written as its statements alone.
pub proof fn lemma_no_helper_no_prelude(m: PyModule, auto_print_last: bool, j: JmespathSources)
    requires
        !module_uses(m, Helper::Try),
        !module_uses(m, Helper::Regex),
        !module_uses(m, Helper::Subprocess),
        !module_uses(m, Helper::Structured),
    ensures
        python_text(m, auto_print_last, j) == body_text(0, m, auto_print_last),
{
    assert(prelude_text(0, m, j) =~= Seq::<char>::empty());
    assert(python_text(m, auto_print_last, j) =~= body_text(0, m, auto_print_last));
}

/// Six texts in a row, one of which is a gap and `x`, are some text, `x`,
/// and some more text.
proof fn lemma_piece(parts: Seq<Seq<char>>, k: int, gap: Seq<char>, x: Seq<char>) -> (split: (Seq<char>, Seq<char>))
    requires
        parts.len() == 6,
        0 <= k < 6,
        parts[k] == gap + x,
    ensures
        parts[0] + parts[1] + parts[2] + parts[3] + parts[4] + parts[5] == split.0 + x + split.1,
{
    let a = parts[0];
    let b = parts[1];
    let c = parts[2];
    let d = parts[3];
    let e = parts[4];
    let f = parts[5];
    if k == 0 {
        assert(a + b + c + d + e + f =~= gap + x + (b + c + d + e + f));
        (gap, b + c + d + e + f)
    } else if k == 1 {
        assert(a + b + c + d + e + f =~= (a + gap) + x + (c + d + e + f));
        (a + gap, c + d + e + f)
    } else if k == 2 {
        assert(a + b + c + d + e + f =~= (a + b + gap) + x + (d + e + f));
        (a + b + gap, d + e + f)
    } else if k == 3 {
        assert(a + b + c + d + e + f =~= (a + b + c + gap) + x + (e + f));
        (a + b + c + gap, e + f)
    } else if k == 4 {
        assert(a + b + c + d + e + f =~= (a + b + c + d + gap) + x + f);
        (a + b + c + d + gap, f)
    } else {
        assert(a + b + c + d + e + f =~= (a + b + c + d + e + gap) + x);
        (a + b + c + d + e + gap, Seq::empty())
    }
}

/// Every helper that a module calls is written into its source, whole:
/// the source is some text, the helper's text, and some more text.
pub proof fn lemma_used_helper_is_written(m: PyModule, auto_print_last: bool, j: JmespathSources, h: Helper) -> (parts: (
    Seq<char>,
    Seq<char>,
))
    requires
        module_uses(m, h),
    ensures
        python_text(m, auto_print_last, j) == parts.0 + helper_text(h, 0, j) + parts.1,
{
    let t = module_uses(m, Helper::Try);
    let r = module_uses(m, Helper::Regex);
    let p = module_uses(m, Helper::Subprocess);
    let st = module_uses(m, Helper::Structured);
    let parts = seq![
        section(0, t, false, helper_text(Helper::Try, 0, j)),
        section(0, r, t, helper_text(Helper::Regex, 0, j)),
        section(0, p, t || r, helper_text(Helper::Subprocess, 0, j)),
        section(0, st, t || r || p, helper_text(Helper::Structured, 0, j)),
        section(0, (t || r || p || st) && m.body.len() > 0, false, blank_line(0)),
        body_text(0, m, auto_print_last),
    ];
    assert(python_text(m, auto_print_last, j) == parts[0] + parts[1] + parts[2] + parts[3] + parts[4] + parts[5]);
    let x = helper_text(h, 0, j);
    match h {
        Helper::Try => lemma_piece(parts, 0, Seq::empty(), x),
        Helper::Regex => lemma_piece(parts, 1, if t { blank_line(0) } else { Seq::empty() }, x),
        Helper::Subprocess => lemma_piece(parts, 2, if t || r { blank_line(0) } else { Seq::empty() }, x),
        Helper::Structured => lemma_piece(
            parts,
            3,
            if t || r || p { blank_line(0) } else { Seq::empty() },
            x,
        ),
    }
}


/// The lines of the jmespath package, one after another.
pub open spec fn jmespath_lines(j: JmespathSources) -> Seq<(nat, Seq<char>)> {
    jmespath_header_lines()
        + jmespath_module_lines("compat"@, "# Inject jmespath.compat (base module)"@, j.compat@)
        + jmespath_module_lines("exceptions"@, "# Inject jmespath.exceptions"@, j.exceptions@)
        + jmespath_module_lines("ast"@, "# Inject jmespath.ast"@, j.ast@)
        + jmespath_module_lines("lexer"@, "# Inject jmespath.lexer"@, j.lexer@)
        + jmespath_module_lines("functions"@, "# Inject jmespath.functions"@, j.functions@)
        + jmespath_module_lines("visitor"@, "# Inject jmespath.visitor"@, j.visitor@)
        + jmespath_module_lines("parser"@, "# Inject jmespath.parser"@, j.parser@)
        + jmespath_init_lines(j.init@)
}

/// Whether a line compiles and runs embedded source: it starts with
/// `exec(compile(`.
pub open spec fn is_exec_line(t: Seq<char>) -> bool {
    t.len() >= 13 && t.subrange(0, 13) == "exec(compile("@
}

/// How many of the lines compile and run embedded source.
pub open spec fn exec_line_count(lines: Seq<(nat, Seq<char>)>) -> nat
    decreases lines.len(),
{
    if lines.len() == 0 {
        0
    } else {
        exec_line_count(lines.drop_last()) + (if is_exec_line(lines.last().1) {
            1nat
        } else {
            0nat
        })
    }
}

/// The line that runs the embedded source of `jmespath/<name>.py` in the
/// module `__mod`.
pub open spec fn module_exec_line(name: Seq<char>, source: Seq<char>) -> Seq<char> {
    "exec(compile(\""@ + escape_py(source) + "\", 'jmespath/"@ + name + ".py', 'exec'), __mod.__dict__)"@
}

proof fn lemma_lines_text_append(k: nat, a: Seq<(nat, Seq<char>)>, b: Seq<(nat, Seq<char>)>)
    ensures
        lines_text(k, a + b) == lines_text(k, a) + lines_text(k, b),
    decreases b.len(),
{
    if b.len() == 0 {
        assert(a + b =~= a);
        assert(lines_text(k, a) + Seq::<char>::empty() =~= lines_text(k, a));
    } else {
        assert((a + b).drop_last() =~= a + b.drop_last());
        assert((a + b).last() == b.last());
        lemma_lines_text_append(k, a, b.drop_last());
        assert(lines_text(k, a + b) =~= lines_text(k, a) + lines_text(k, b));
    }
}

proof fn lemma_exec_count_append(a: Seq<(nat, Seq<char>)>, b: Seq<(nat, Seq<char>)>)
    ensures
        exec_line_count(a + b) == exec_line_count(a) + exec_line_count(b),
    decreases b.len(),
{
    if b.len() == 0 {
        assert(a + b =~= a);
    } else {
        assert((a + b).drop_last() =~= a + b.drop_last());
        assert((a + b).last() == b.last());
        lemma_exec_count_append(a, b.drop_last());
    }
}

/// A line that starts with a character other than `e` runs nothing.
proof fn lemma_not_exec(t: Seq<char>)
    requires
        t.len() == 0 || t[0] != 'e',
    ensures
        !is_exec_line(t),
{
    reveal_strlit("exec(compile(");
    if t.len() >= 13 {
        assert(t.subrange(0, 13)[0] == t[0]);
    }
}

proof fn lemma_first_char(lit: Seq<char>, rest: Seq<char>)
    requires
        lit.len() > 0,
    ensures
        (lit + rest)[0] == lit[0],
        (lit + rest).len() > 0,
{
}

proof fn lemma_no_exec_lines(lines: Seq<(nat, Seq<char>)>)
    requires
        forall|i: int| 0 <= i < lines.len() ==> !is_exec_line(#[trigger] lines[i].1),
    ensures
        exec_line_count(lines) == 0,
    decreases lines.len(),
{
    if lines.len() > 0 {
        let d = lines.drop_last();
        assert forall|i: int| 0 <= i < d.len() implies !is_exec_line(#[trigger] d[i].1) by {
            assert(d[i] == lines[i]);
        }
        lemma_no_exec_lines(d);
        assert(!is_exec_line(lines[lines.len() - 1].1));
    }
}

proof fn lemma_header_runs_nothing()
    ensures
        exec_line_count(jmespath_header_lines()) == 0,
{
    reveal_strlit("# Vendored jmespath library (embedded to avoid external dependency)");
    reveal_strlit("import sys");
    reveal_strlit("if 'jmespath' not in sys.modules:");
    reveal_strlit("import types");
    reveal_strlit("");
    reveal_strlit("__jmespath = types.ModuleType('jmespath')");
    reveal_strlit("__jmespath.__package__ = 'jmespath'");
    reveal_strlit("__jmespath.__path__ = []");
    reveal_strlit("sys.modules['jmespath'] = __jmespath");
    let h = jmespath_header_lines();
    assert forall|i: int| 0 <= i < h.len() implies !is_exec_line(#[trigger] h[i].1) by {
        lemma_not_exec(h[i].1);
    }
    lemma_no_exec_lines(h);
}

proof fn lemma_module_runs_once(name: Seq<char>, comment: Seq<char>, source: Seq<char>)
    requires
        comment.len() > 0,
        comment[0] == '#',
    ensures
        exec_line_count(jmespath_module_lines(name, comment, source)) == 1,
        jmespath_module_lines(name, comment, source).len() == 7,
        jmespath_module_lines(name, comment, source)[3] == (1nat, module_exec_line(name, source)),
        forall|i: int| 0 <= i < 7 ==> #[trigger] jmespath_module_lines(name, comment, source)[i].0 == 1,
{
    reveal_strlit("__mod = types.ModuleType('jmespath.");
    reveal_strlit("__mod.__package__ = 'jmespath'");
    reveal_strlit("exec(compile(\"");
    reveal_strlit("exec(compile(");
    reveal_strlit("sys.modules['jmespath.");
    reveal_strlit("__jmespath.");
    reveal_strlit("");
    let m = jmespath_module_lines(name, comment, source);
    lemma_not_exec(comment);
    let l1 = "__mod = types.ModuleType('jmespath."@ + name + "')"@;
    lemma_first_char("__mod = types.ModuleType('jmespath."@, name + "')"@);
    assert(l1 =~= "__mod = types.ModuleType('jmespath."@ + (name + "')"@));
    lemma_not_exec(l1);
    lemma_not_exec("__mod.__package__ = 'jmespath'"@);
    let l3 = module_exec_line(name, source);
    assert(l3.subrange(0, 13) =~= "exec(compile("@);
    let l4 = "sys.modules['jmespath."@ + name + "'] = __mod"@;
    assert(l4 =~= "sys.modules['jmespath."@ + (name + "'] = __mod"@));
    lemma_first_char("sys.modules['jmespath."@, name + "'] = __mod"@);
    lemma_not_exec(l4);
    let l5 = "__jmespath."@ + name + " = __mod"@;
    assert(l5 =~= "__jmespath."@ + (name + " = __mod"@));
    lemma_first_char("__jmespath."@, name + " = __mod"@);
    lemma_not_exec(l5);
    lemma_not_exec(""@);
    assert(m.take(7) =~= m);
    assert(m.take(6) =~= m.take(7).drop_last());
    assert(m.take(5) =~= m.take(6).drop_last());
    assert(m.take(4) =~= m.take(5).drop_last());
    assert(m.take(3) =~= m.take(4).drop_last());
    assert(m.take(2) =~= m.take(3).drop_last());
    assert(m.take(1) =~= m.take(2).drop_last());
    assert(m.take(0) =~= m.take(1).drop_last());
    assert(exec_line_count(m.take(0)) == 0);
    assert(m.take(1).last() == m[0]);
    assert(m[0].1 == comment);
    assert(exec_line_count(m.take(1)) == 0);
    assert(exec_line_count(m.take(2)) == 0);
    assert(exec_line_count(m.take(3)) == 0);
    assert(exec_line_count(m.take(4)) == 1);
    assert(exec_line_count(m.take(5)) == 1);
    assert(exec_line_count(m.take(6)) == 1);
    assert(exec_line_count(m.take(7)) == 1);
}

proof fn lemma_init_runs_once(source: Seq<char>)
    ensures
        exec_line_count(jmespath_init_lines(source)) == 1,
        jmespath_init_lines(source).len() == 4,
        jmespath_init_lines(source)[1] == (1nat, "exec(compile(\""@ + escape_py(source)
            + "\", 'jmespath/__init__.py', 'exec'), __jmespath.__dict__)"@),
        jmespath_init_lines(source)[0].0 == 1 && jmespath_init_lines(source)[2].0 == 1,
        jmespath_init_lines(source)[3] == (0nat, ""@),
{
    reveal_strlit("# Inject jmespath main module");
    reveal_strlit("exec(compile(\"");
    reveal_strlit("exec(compile(");
    reveal_strlit("");
    let m = jmespath_init_lines(source);
    lemma_not_exec("# Inject jmespath main module"@);
    lemma_not_exec(""@);
    assert(m[1].1.subrange(0, 13) =~= "exec(compile("@);
    assert(m.take(4) =~= m);
    assert(m.take(3) =~= m.take(4).drop_last());
    assert(m.take(2) =~= m.take(3).drop_last());
    assert(m.take(1) =~= m.take(2).drop_last());
    assert(m.take(0) =~= m.take(1).drop_last());
    assert(exec_line_count(m.take(0)) == 0);
    assert(m.take(1).last() == m[0]);
    assert(m[0].1 == "# Inject jmespath main module"@);
    assert(exec_line_count(m.take(1)) == 0);
    assert(exec_line_count(m.take(2)) == 1);
    assert(exec_line_count(m.take(3)) == 1);
    assert(exec_line_count(m.take(4)) == 1);
}

/// The jmespath package is written as whole lines, `k` levels in: the
/// header, which opens an `if 'jmespath' not in sys.modules:` block, then
/// inside that block one `exec(compile(` line for each of `jmespath/compat.py`,
/// `exceptions.py`, `ast.py`, `lexer.py`, `functions.py`, `visitor.py`,
/// `parser.py` and `__init__.py`, in that order, and no other; the package
/// ends with an empty line at the outer level.
pub proof fn lemma_jmespath_written_whole(k: nat, j: JmespathSources)
    ensures
        jmespath_text(k, j) == lines_text(k, jmespath_lines(j)),
        jmespath_lines(j).len() == 63,
        jmespath_lines(j)[2] == (0nat, "if 'jmespath' not in sys.modules:"@),
        forall|i: int| 3 <= i < 62 ==> #[trigger] jmespath_lines(j)[i].0 >= 1,
        jmespath_lines(j)[62] == (0nat, ""@),
        exec_line_count(jmespath_lines(j)) == 8,
        jmespath_lines(j)[13].1 == module_exec_line("compat"@, j.compat@),
        jmespath_lines(j)[20].1 == module_exec_line("exceptions"@, j.exceptions@),
        jmespath_lines(j)[27].1 == module_exec_line("ast"@, j.ast@),
        jmespath_lines(j)[34].1 == module_exec_line("lexer"@, j.lexer@),
        jmespath_lines(j)[41].1 == module_exec_line("functions"@, j.functions@),
        jmespath_lines(j)[48].1 == module_exec_line("visitor"@, j.visitor@),
        jmespath_lines(j)[55].1 == module_exec_line("parser"@, j.parser@),
        jmespath_lines(j)[60].1 == "exec(compile(\""@ + escape_py(j.init@)
            + "\", 'jmespath/__init__.py', 'exec'), __jmespath.__dict__)"@,
{
    let h = jmespath_header_lines();
    let c0 = "# Inject jmespath.compat (base module)"@;
    let c1 = "# Inject jmespath.exceptions"@;
    let c2 = "# Inject jmespath.ast"@;
    let c3 = "# Inject jmespath.lexer"@;
    let c4 = "# Inject jmespath.functions"@;
    let c5 = "# Inject jmespath.visitor"@;
    let c6 = "# Inject jmespath.parser"@;
    reveal_strlit("# Inject jmespath.compat (base module)");
    reveal_strlit("# Inject jmespath.exceptions");
    reveal_strlit("# Inject jmespath.ast");
    reveal_strlit("# Inject jmespath.lexer");
    reveal_strlit("# Inject jmespath.functions");
    reveal_strlit("# Inject jmespath.visitor");
    reveal_strlit("# Inject jmespath.parser");
    let m0 = jmespath_module_lines("compat"@, c0, j.compat@);
    let m1 = jmespath_module_lines("exceptions"@, c1, j.exceptions@);
    let m2 = jmespath_module_lines("ast"@, c2, j.ast@);
    let m3 = jmespath_module_lines("lexer"@, c3, j.lexer@);
    let m4 = jmespath_module_lines("functions"@, c4, j.functions@);
    let m5 = jmespath_module_lines("visitor"@, c5, j.visitor@);
    let m6 = jmespath_module_lines("parser"@, c6, j.parser@);
    let it = jmespath_init_lines(j.init@);
    lemma_header_runs_nothing();
    lemma_module_runs_once("compat"@, c0, j.compat@);
    lemma_module_runs_once("exceptions"@, c1, j.exceptions@);
    lemma_module_runs_once("ast"@, c2, j.ast@);
    lemma_module_runs_once("lexer"@, c3, j.lexer@);
    lemma_module_runs_once("functions"@, c4, j.functions@);
    lemma_module_runs_once("visitor"@, c5, j.visitor@);
    lemma_module_runs_once("parser"@, c6, j.parser@);
    lemma_init_runs_once(j.init@);
    let p1 = h + m0;
    let p2 = p1 + m1;
    let p3 = p2 + m2;
    let p4 = p3 + m3;
    let p5 = p4 + m4;
    let p6 = p5 + m5;
    let p7 = p6 + m6;
    let all = p7 + it;
    assert(all == jmespath_lines(j));
    lemma_lines_text_append(k, h, m0);
    lemma_lines_text_append(k, p1, m1);
    lemma_lines_text_append(k, p2, m2);
    lemma_lines_text_append(k, p3, m3);
    lemma_lines_text_append(k, p4, m4);
    lemma_lines_text_append(k, p5, m5);
    lemma_lines_text_append(k, p6, m6);
    lemma_lines_text_append(k, p7, it);
    lemma_exec_count_append(h, m0);
    lemma_exec_count_append(p1, m1);
    lemma_exec_count_append(p2, m2);
    lemma_exec_count_append(p3, m3);
    lemma_exec_count_append(p4, m4);
    lemma_exec_count_append(p5, m5);
    lemma_exec_count_append(p6, m6);
    lemma_exec_count_append(p7, it);
    assert(h.len() == 10);
    assert forall|i: int| 3 <= i < 62 implies #[trigger] all[i].0 >= 1 by {
        if i < 10 {
            assert(all[i] == h[i]);
        } else if i < 59 {
            let m = (i - 10) / 7;
            let r = (i - 10) % 7;
            if m == 0 { assert(all[i] == m0[r]); }
            else if m == 1 { assert(all[i] == m1[r]); }
            else if m == 2 { assert(all[i] == m2[r]); }
            else if m == 3 { assert(all[i] == m3[r]); }
            else if m == 4 { assert(all[i] == m4[r]); }
            else if m == 5 { assert(all[i] == m5[r]); }
            else { assert(all[i] == m6[r]); }
        } else {
            assert(all[i] == it[i - 59]);
        }
    }
    assert(all[13] == m0[3]);
    assert(all[20] == m1[3]);
    assert(all[27] == m2[3]);
    assert(all[34] == m3[3]);
    assert(all[41] == m4[3]);
    assert(all[48] == m5[3]);
    assert(all[55] == m6[3]);
    assert(all[60] == it[1]);
    assert(all[62] == it[3]);
    assert(all[2] == h[2]);
}


/// The first `n` statements of a block come out one after another: the text
/// of the first `i` is a prefix of the text of the first `n`, followed
/// directly by the text of the `i`-th statement, whole.
pub proof fn lemma_block_text_holds_each_statement(s: Seq<PyStmt>, ind: nat, i: int, n: int)
    requires
        0 <= i < n <= s.len(),
    ensures
        stmts_text(s, ind, n).len() >= stmts_text(s, ind, i).len() + stmt_text(s[i], ind).len(),
        stmts_text(s, ind, n).subrange(0, stmts_text(s, ind, i).len() as int) == stmts_text(s, ind, i),
        stmts_text(s, ind, n).subrange(
            stmts_text(s, ind, i).len() as int,
            stmts_text(s, ind, i).len() + stmt_text(s[i], ind).len() as int,
        ) == stmt_text(s[i], ind),
    decreases n - i,
{
    if n == i + 1 {
        let a = stmts_text(s, ind, i);
        let b = stmt_text(s[i], ind);
        assert(stmts_text(s, ind, n) == a + b);
        assert((a + b).subrange(0, a.len() as int) =~= a);
        assert((a + b).subrange(a.len() as int, a.len() + b.len() as int) =~= b);
    } else {
        lemma_block_text_holds_each_statement(s, ind, i, n - 1);
        let p = stmts_text(s, ind, n - 1);
        let q = stmt_text(s[n - 1], ind);
        assert(stmts_text(s, ind, n) == p + q);
        let lo = stmts_text(s, ind, i).len() as int;
        let hi = lo + stmt_text(s[i], ind).len() as int;
        assert((p + q).subrange(0, lo) =~= p.subrange(0, lo));
        assert((p + q).subrange(lo, hi) =~= p.subrange(lo, hi));
    }
}

/// A compound statement is written as its header line at its own level,
/// then its body one level in (`pass` when the body is empty), then its
/// `else` block, if any, headed by `else:` at its own level.
pub proof fn lemma_compound_text_heads_its_blocks(s: PyStmt, ind: nat)
    ensures
        s matches PyStmt::While { test, body, orelse, .. } ==> stmt_text(s, ind) == line_text(
            ind,
            "while "@ + expr_text(test) + ":"@,
        ) + suite_text(body@, ind + 1) + (if orelse.len() > 0 {
            line_text(ind, "else:"@) + suite_text(orelse@, ind + 1)
        } else {
            Seq::empty()
        }),
        s matches PyStmt::For { target, iter, body, orelse, .. } ==> stmt_text(s, ind) == line_text(
            ind,
            "for "@ + expr_text(target) + " in "@ + expr_text(iter) + ":"@,
        ) + suite_text(body@, ind + 1) + (if orelse.len() > 0 {
            line_text(ind, "else:"@) + suite_text(orelse@, ind + 1)
        } else {
            Seq::empty()
        }),
        s matches PyStmt::If { test, body, orelse, .. } ==> stmt_text(s, ind) == line_text(
            ind,
            "if "@ + expr_text(test) + ":"@,
        ) + suite_text(body@, ind + 1) + elif_text(orelse@, ind),
        s matches PyStmt::ClassDef { name, body, .. } ==> stmt_text(s, ind) == line_text(
            ind,
            "class "@ + name@ + ":"@,
        ) + suite_text(body@, ind + 1),
        s matches PyStmt::With { items, body, .. } ==> stmt_text(s, ind) == line_text(
            ind,
            "with "@ + join(with_items_texts(items@), ", "@) + ":"@,
        ) + suite_text(body@, ind + 1),
        forall|body: Seq<PyStmt>| #![trigger suite_text(body, ind + 1)] body.len() == 0 ==> suite_text(body, ind + 1) == line_text(ind + 1, "pass"@),
        forall|body: Seq<PyStmt>| #![trigger suite_text(body, ind + 1)] body.len() > 0 ==> suite_text(body, ind + 1) == stmts_text(body, ind + 1, body.len() as int),
{
}

} // verus!
