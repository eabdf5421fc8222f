# equivalence_testing

Building blocks of a SQL query generator driven by a Markov chain, and a
checker of whether the WHERE clause of a query can be told apart from its
NULL-safe rewriting. The library in `src/` is verified with Verus.

- `sql_ast`: a model of the SQL syntax tree; what the rules do not read is
  carried in a payload of the caller's type.
- `equivalence_testing_function`: reading a query with `sqlparser`, and the
  WHERE-clause check over the model.
- `expr_precedence`: operator priorities and the parentheses they call for.
- `dot_lexer`, `dot_parser`: the reader of the graph description (a DOT
  dialect), from characters to code units.
- `substitute_models`, `value_choosers`: the models that reshape the
  probabilities of the next state, and the choosers of values.
- `ast_to_path`: turning the queries of a training set into paths of states.
- `text`: character-level helpers.

`app/` is the program around the library: arguments, files, the conversion
from `sqlparser` trees into the model, and what needs floating point.
