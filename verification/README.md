# abaco

A calculator and unit-converter engine whose decisions are verified with Verus.

- `src/` — the verified library:
  - `lexer` — tokens and the tokenizer (number literals keep their text);
  - `eval` — variables, and the recursive-descent compiler from tokens to a
    stack program, with exact error reporting;
  - `stack`, `literals` — laws about compiled programs: they never run out of
    operands, leave exactly one value, and push only valid `f64` literals;
  - `units`, `core_types` — the unit registry, lookup, listing and conversion
    checks; categories, units and currencies;
  - `session`, `mcp`, `desktop` — decisions of the interactive prompt and of
    the JSON-RPC tool server (what each line read from stdin is answered with,
    and the tool list);
  - `json` — JSON values one level deep, as `serde_json` parses them, and the
    reading of object members, strings and numbers;
  - `text` — string helpers (`trim`, decimal digits, lower-casing).
- `app/` — the command-line program: argument parsing, the prompt, the tool
  server's reading and writing, and the `f64` arithmetic that runs compiled programs and conversions.
- `tests/` — tests of the library.

Real numbers cross the library's interface as `f64` bit patterns (`u64`).
