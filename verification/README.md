# lean-ffi

Ownership-aware Rust bindings to the Lean 4 runtime, with a verified core.

- `src/` is the core, verified with Verus. It models a Lean reference as the
  pointer-sized word it holds and states what the runtime's conventions
  compute on it: tagged scalars (`lean_box` / `lean_unbox`), enum tags,
  `Bool`, the empty `List` and `Option`, the list cursor, the constructor
  tags and fields of `List`, `Option`, `Except`, `IO` results and `Prod`,
  when an object must
  be marked multi-threaded, the byte layout of constructor fields, how a
  natural number is encoded (tagged scalar, 64-bit word, or GMP limbs) and
  decoded again, and the little-endian byte and limb arithmetic beneath it.
  Arbitrary-precision numbers are `num_bigint::BigUint`, called through
  small trusted wrappers whose contracts say what each call returns.
- `app/` is the runtime layer: the `lean.h` and GMP declarations, handles
  whose `Drop` and `Clone` update reference counts, the typed wrappers that
  read and build Lean objects, the `lean_domain_type!` / `lean_inductive!`
  macros, and the entry points the Lean test suite calls. The object model's
  decisions it needs (boxing, tags and fields of the built-in inductives,
  list cursors, multi-threaded marking, field offsets, `Nat` encodings) are
  taken from `src/`; what it adds is the runtime calls around them, and in the
  test entry points the small dispatch and arithmetic the Lean tests probe.
- `tests/` exercises the core on concrete values.
