# contexts

The contexts in which contract code is run: what names are bound to, who calls
whom, what is transferred on the way, and what of it is kept.

- `asset_map`: what each principal sent, with `asset_laws` on how maps combine.
- `global_context`: nested contexts, and what becomes of one when its call ends.
- `environment`, `owned_environment`: running a call, and a whole transaction.
- `contract_context`, `local_context`: names and what they are bound to.
- `call_stack`: the functions that are running.
- `keyed_map`, `transfer_table`, `text`: collections and text used by the above.
- `types`, `errors`: values, principals, functions and errors.

Parsing, evaluation and the database are not here. A function that needs them
takes them as functions, its contract says what they are called with, and it
returns what is to become of the database's save point. `app/` ties the library to
an interpreter and a database.
