# dockerfile_builder

Type-safe builders for Dockerfile instructions, verified with Verus.

Each builder (`FromBuilder`, `RunExecBuilder`, `HealthcheckBuilder`, ...) is
created with `builder()`, filled in with one setter per field, and turned into
an instruction with `build()`. The text an instruction renders to is stated in
the contracts of `value()` and `build()` as a spec function of the fields, and
proved.

Layout of `src/`:

- `text.rs`: joining, quoting, decimal numbers and optional flags, as spec
  functions with the executable code that produces them.
- `instruction.rs`: the instruction types (`FROM`, `RUN`, ...) and `Instruction`.
- `instruction_builder/`: the builders, grouped by kind.
- `error.rs`: `BuildError` and its messages.
- `url_check.rs`, `duration.rs`: the calls into the `url` crate and into
  `std::time::Duration`, with the contracts the rest relies on.
- `laws.rs`: properties that relate several builders or hold of every input.
