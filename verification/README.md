# fajt

The front end of a JavaScript parser, verified with Verus.

- `src/reader.rs`: a reader over the characters of a source text, with its
  position and end-of-file state, and `read_until`, which reads a run of
  characters.
- `src/token.rs`: keywords, punctuators, literals and tokens, and the rules
  for which keywords may be used as identifiers in which context.
- `src/token_reader.rs`: a reader over a sequence of tokens that can look one
  token ahead and go back to a marked place.
- `src/parser.rs` and `src/parser/`: the parser's token-level helpers, the
  search for a closing parenthesis, and the parsing of binding patterns,
  import declarations, property names, variable keywords and variable
  statements. Each parsing step is stated by a spec function of the tokens,
  and the parser is proved to do what it states.
- `src/error.rs`, `src/lexer_error.rs`: errors and their messages.
- `app/lib.rs`: serde copies of the token and error types, and the standard
  formatting traits for the parse error.
