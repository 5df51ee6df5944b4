# swpt_core

Verified integer core of a seawater wireless power transfer (SWPT) optimal
operating angle calculator.

- `src/` (Verus): normalization of the discrete model parameters — coil turn
  count, radial/axial/`lambda` sample counts, the automatic `lambda` grid
  recommendation — and of the solver options, plus the vocabulary of the angle
  search outcome. Idempotence, range and monotonicity laws are proved there.
- `app/` (plain Rust): the WebAssembly entry points and the floating-point
  model (eddy-current integrals with `ndarray` and `libm`, the angle search and
  the loss breakdown), which call into the verified core.
- `tests/`: executable tests of the verified core.
