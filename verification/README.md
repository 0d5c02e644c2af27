# snail

Snail is a curly-brace scripting language that compiles to Python, with awk
and map modes for line and file processing. This crate is its compiler core,
written in Verus: every function in `src/` carries a contract that Verus
proves, except three small trusted wrappers around outside code, whose
contracts are believed, not proved: `String::push` (`text.rs`), the unified
diff of the `similar` crate (`format.rs`), and the `Debug` quoting of a
string (`debug_form.rs`).

## Layout

- `src/ast.rs`, `src/pyast.rs`: the Snail syntax tree and the Python syntax
  tree, each with a mathematical view used by the contracts.
- `src/lower.rs`, `src/lower_stmt.rs`, `src/lower_awk.rs`, `src/lower_map.rs`:
  lowering of expressions, statements, awk programs and the `files` loop of
  map mode to the Python tree, each stated
  against a spec function, with the exact faults that stop it.
- `src/placeholder.rs`, `src/fill.rs`: the `_` placeholders of a piped
  call, counted at any depth of its arguments, and the piped value put in
  the place of the one that is allowed.
- `src/emit_expr.rs`, `src/emit.rs`: Python source text for the tree, the
  runtime helpers that a module uses, and the auto-print of the last value.
- `src/wrap.rs`: the source handed to the parser in each mode, with the
  command line's BEGIN and END code.
- `src/usage.rs`: which runtime helpers a module needs.
- `src/format.rs`: the source formatter and its unified diff (through the
  `similar` crate).
- `src/lexing.rs`, `src/fstring.rs`, `src/syntax.rs`, `src/source_pos.rs`,
  `src/shift.rs`: text-level steps of the parser: escapes, interpolated
  strings, subprocess commands, assignment targets, source positions and
  spans.
- `src/debug_form.rs`: the `Debug` text of an expression, for error messages.
- `src/constants.rs`, `src/text.rs`, `src/utils.rs`, `src/error.rs`: names of
  the runtime, string helpers, sizes and the error types.
- `app/main.rs`: the command-line program around the library (argument
  handling, files, running the Python interpreter, self-update).
- `tests/`: tests on concrete values, one or more for each law.

The laws of the library are public proof functions (`lemma_*`), each with
its law stated in words in its doc comment.
