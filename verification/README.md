# shine_core

The core of Shine, a manager of personal configuration: which files it owns, what
an operation would do to them, and how an interrupted operation is undone. The
library is written in Verus; what each function does is stated in its contract and
proved.

- `src/` is the library. It decides and computes; it touches no file and runs no
  process. Installing, upgrading, refreshing and removing Apps, running their hooks,
  carrying out an approved operation, committing it and undoing it are small machines:
  each says what it asks for next, and takes in what the host reports. Shorter work on
  a host, such as a generator or managed keys in a JSON file, is a decision taken from
  what the host found.
- `app/` is the host: files, processes, the resolver, and the documents in which
  receipts and journals are kept.
- `tests/` drives the library over hosts in memory.

Modules whose names end in `_laws`, and functions whose names begin with `law_`,
state what holds of the library as a whole: that an approval binds one plan, that a
journal is saved before anything is changed, that one lock serves a privileged
operation through its commit, that an interrupted operation can be undone and leaves
whole files exactly as they were, that an upgrade stays with the categories that are
installed, that no hook of a category is run after one that failed, that an operation whose receipts
are settled is kept, that a preview changes nothing, and that what a user changed is
left alone. Two interruptions are left out of what is stated about undoing: an update
that stops between writing a file and giving it the mode of the file it replaces, and
objects with numbers that do not read back as they were written.

Paths are text. On Windows `\` separates names as `/` does, and a path starts at a
drive or a share.

JSON is read and written by `serde_json`. The functions that call it are marked
`#[verifier::external_body]` in `src/json.rs`; their contracts are believed, and
their comments say what is claimed. `src/text.rs` and `src/lexical.rs` do the same
for three functions of the standard library.
