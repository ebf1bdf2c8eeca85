# pyxirr

Periodic cash-flow functions (NPV, IRR, MIRR, FV, PV, PMT and the rest of the
numpy-financial set), with SIMD-accelerated NPV kernels.

## Layout

- `src/` is the verified library. It holds everything these
  functions decide that is not floating-point arithmetic:
  - `models.rs`: how an amount compares with zero (`Sign`), and the validation
    every rate function makes (money must go both ways).
  - `utils.rs`: the span of a flow between its first and last amount that is
    not zero.
  - `periodic/npv.rs`: the SIMD tier a process runs on, the kernel each NPV
    call takes, and the walk each kernel makes over a slice, proved to read
    every element exactly once and never outside the slice.
  - `periodic/canonical.rs`: the checks and sign counting of the canonical
    rate search, and the decisions of its sweep.
  - `periodic/irr.rs`: which solution of the quadratic a flow of three amounts
    reports.
  - `periodic/powers.rs`: which power of the base each item of a powers
    sequence is, and how its four-slot cache advances.
  - `periodic/mod.rs`: the order of the internal-rate-of-return search and its
    fallbacks, proved to end with a rate or an error.
- `app/` is the public API: the formulas, the root finders and the
  intrinsics kernels, in ordinary Rust, calling the library for every decision.
- `tests/` exercises the library, and replays each kernel's lane arithmetic
  along the walks the library hands out.
