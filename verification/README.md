# meos

Rust bindings for [MEOS](https://libmeos.org/), the C library for
spatio-temporal data, split in two parts:

- `src/` is the verified library (Verus): the WKB output flags
  (`WKBVariant`), the interpolation kinds (`TInterpolation`), the JSON
  layouts, the conversions between Unix and MEOS time bases, the packing of
  shift/scale arguments, the decoding of MEOS answers, and the `Collection`
  and `BoundingBox` traits.
- `app/` holds the types that wrap MEOS values (boxes, spans, span sets and
  temporal numbers). Each of their operations is a call into the C library
  through raw pointers; the time-base conversions, shift/scale packing and
  answer decoding around those calls come from the verified library, and
  `app/` only turns its plain values into `chrono` values and back.
