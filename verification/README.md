# ecss_parser

A parser for ECSS, the CSS superset with `@state-variant`, `@state-def` and
`@if` / `@elseif` / `@else` rules, proved correct with Verus.

## Layout

- `src/` — the verified library.
  - `token.rs`: the token tree the parser reads (tokens, blocks, locations)
    and how each token is written back as text.
  - `cursor.rs`: a cursor over the token tree with the reading operations of
    a CSS parser (`next`, `expect`, delimited stretches, nested blocks), each
    specified by a spec function.
  - `condition.rs`: the `@if` condition grammar (`||`, `&&`, `==`, `!=`,
    groups, variables).
  - `parser.rs`: stylesheets, `@state-variant` and `@state-def` heads and
    bodies, declarations, nested rules, `@if` chains and pass-through CSS
    at-rules. Every exec function is proved to agree with a spec function of
    the same grammar; `parse` returns exactly `s_stylesheet` of its input.
  - `ast.rs`: the AST, its mathematical model and its well-formedness (the
    `kind` field names the one populated variant).
  - `error.rs`: errors and their messages; a `ParseError` displays as
    `[line:column] message`.
  - `laws.rs`: properties proved for every input (operator precedence,
    parameter typing, how `@if` chains close, reading `!important`).
  - `text.rs`: whitespace trimming, decimal rendering and the std string
    calls the parser uses.
- `tests/` — tests on sources tokenized with `cssparser`.
- `app/` — the Node.js binding: tokenizes the source with `cssparser`, runs
  the parser, and converts the AST for N-API.
