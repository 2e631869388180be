# central_codegen

Generates the central files of the Godot bindings for Rust from Godot's interface description
(`extension_api.json`): the opaque types, the table of functions that are loaded from Godot, the
enums of variant types and operators, the dispatch over variant types, and the global enums.

`src/` is the library, verified with Verus.

| module     | what it holds                                                              |
|------------|----------------------------------------------------------------------------|
| `api`      | the part of the interface description that is read                         |
| `text`     | conversions between the spellings of a name                                |
| `ident`    | which strings are Rust identifiers                                         |
| `tokens`   | token streams, and the calls into `proc_macro2` and `quote`                |
| `types`    | the builtin types, by name and by ordinal                                  |
| `fields`   | the fields of the table of functions                                       |
| `code`     | the tokens of the two files                                                |
| `items`    | what the files are made of                                                 |
| `check`    | whether code can be generated from an interface description, and why not   |
| `generate` | the two files                                                              |
| `laws`     | what holds of the generated files as a whole                               |

`app/` writes the files to disk. How a builtin type is spelled in Rust, and how a global enum is
defined, is the business of other parts of the generator: they implement `Generators` there.

`proc-macro2` and `quote` are used without their `proc-macro` feature: the library runs in build
scripts, not in procedural macros.
