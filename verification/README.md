# dbe

Basic economics: discounted-cashflow analysis and consumer theory
(preferences, indifference curves, Marshallian demand), with Python bindings.

- `src/` is the verified library. It holds the discrete part of each
  procedure: the payment horizon of a uniform cashflow spread, the bound
  checks of a preference and the sample points on which its rationality
  axioms are tested, the request checks of curve tracing and bundle
  optimisation with the gathering of traced points, and the argument checks
  of the Python bindings.
- `app/` holds the floating-point computations built on it (present values,
  utilities, bisection, the log-barrier optimiser) and the PyO3 extension
  module `_core`.
- `tests/` exercises the library.
