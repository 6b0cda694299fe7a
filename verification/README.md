# redhook

Interposition of C library functions through `LD_PRELOAD`.

- `src/` is the verified library: the initialization flag that keeps hooks
  bypassed during start-up (`init`), the decisions an interposed symbol takes
  on a call (`dispatch`), and the lazy lookup of the next definition of a
  symbol (`lookup`), with the laws that relate them.
- `app/` is the process side: the process-wide flag, stderr diagnostics, the
  `dlsym` lookup and the `hook!`, `vhook!`, `dhook!` and `real!` macros, which
  follow the library's decisions.
- `tests/` runs the library on concrete values.
