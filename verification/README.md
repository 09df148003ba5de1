# meta_aec3

A verified core for a C interface to the `aec3` audio processors (high-pass
filter, AEC3 echo canceller, AGC2 gain controller).

- `src/` is the library, checked by Verus: status codes and their mapping,
  pointer and buffer checks, stream formats, the integer configuration of each
  processor, frame accounting of every processing call, the interleaved /
  per-channel sample layouts (with their round-trip laws), sample counters and
  the integer part of the per-call statistics. The high-pass filter handle and
  the 10-ms frame buffers, with their `aec3` constructors, live here.
- `app/` is the C interface (`extern "C"` functions and `#[repr(C)]` records)
  and everything that moves floating-point samples or options: the echo
  canceller and gain controller engines, voice detection, levels, and the
  floating-point configuration fields.
- `tests/` exercises the library, including the processors' scenarios.
