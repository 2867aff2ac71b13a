# chromaprint

Verified core of a binding to the Chromaprint audio fingerprinting C library.

The C library does the signal processing, compression and hashing. Around
each of its calls, the binding decides which arguments to hand over and what
to make of the status codes, sizes and buffers that come back. Those decisions
live in `src/` and are proved with Verus:

- `sys`: the plain values of the C interface (algorithm numbers, the opaque
  context handle).
- `algorithm`: the algorithms and their numbers in the C interface.
- `error`: the error type and the checks on status codes and sizes.
- `fingerprint`: raw fingerprints; decoding, encoding and hashing, each split
  into a call object (the arguments) and its `finish` (the reply).
- `context`: what the binding knows of a fingerprinting context and how each
  operation changes it.

`app/` declares the C functions, performs the calls (pointers, buffers freed
with `chromaprint_dealloc`, floating point durations) and offers the binding's
usual interface on top of the verified core.
