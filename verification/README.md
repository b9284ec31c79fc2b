# kyyn_templates

Schema crates for the kyyn knowledge-base templates (`blank` and `gbrain`),
written in Verus.

- `src/` is the verified library:
  - `model` holds the records a KB stores (charter, owner, the gbrain page
    primitives, typed edges and takes);
  - `wire` holds the records of the `kyyn:validator@1` boundary;
  - `component` checks a proposed tree (format, canonical order, UTF-8),
    runs validation and serves the registry;
  - `ordering` puts findings in report order (path, then errors before
    warnings, then message) and states the laws of that order;
  - `text` is the byte order of strings and decimal rendering;
  - `validate` and `queries` are the templates' validation and query hooks;
  - `roles` is the KB-wide role policy each namespace declares;
  - `outside` holds the calls into `kyyn-core`, `ron` and `std` that Verus
    takes on trust, with their contracts.
- `app/` holds the schema binaries, the serde/`kyyn-core` derives on copies
  of the model types, the registry assembly (which converts the library's
  roles to the registry's role declarations) and the WebAssembly component
  adapter.
- `tests/` exercises the library.
