# adesh_aot

The ahead-of-time backend of AdeshLang as a verified library. `src/`
holds the parts that decide, compute and plan, with their contracts,
proved by Verus; `app/` runs commands, touches the file system and hands
the planned function bodies to Cranelift's function builder.

- `abi`, `values`, `header`: calling conventions and data layouts, the
  runtime type tags of values, the low-level IR's functions, blocks and
  instructions, and the C header of exported functions.
- `lowering`: the operations planned for a function's entry (parameters,
  and `main`'s storing of its arguments and call of the runtime's
  argument initialiser), for the plain instructions (all constants,
  integer and float arithmetic, booleans, bitwise operations with their
  lane widths, comparisons), for memory and reference counting (calls of
  the runtime), for control flow, for part of the builtins (arithmetic,
  `abs`, `min`/`max`, conversions, argument and environment queries,
  lengths) and for turning a value into a runtime value handle; how a
  returned value reaches the function's result lane; and which
  instructions of each block are compiled.
- `color`, `strings`, `order`, `hash`: colour literals and their escape
  sequences, the strings a module carries in its data section, the order
  of texts, and the cache key of a compilation.
- `object`, `pipeline`: the Cranelift object module (runtime imports,
  globals, string data, user function declarations) and the steps that
  assemble and write an object file.
- `target`, `options`, `cache`: target triples, compiler options and the
  settings derived from them, what a cache lookup concludes and what is
  done after it.
- `attempts`, `linker`, `toolchain`, `discovery`: link plans (which
  programs to run, in which order, with which arguments, and what a
  failure reports) and where the toolchain and runtime are looked for.

The other builtins (printing, formatting, strings, arrays, objects,
files), calls of user functions and closures, and variables are not
planned here; a function that uses them is refused when its body is
emitted.
