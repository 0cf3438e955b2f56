# paddleocr_rs_onnx

The verified core of an ONNX-based OCR engine for PaddleOCR models.

- `src/` is the library, checked by Verus:
  - `device.rs`: acceleration devices, their names and their case-insensitive parsing;
  - `runtime.rs`: ONNX Runtime sessions, and the configuration of a device's execution
    provider with its fallback to the CPU;
  - `text.rs`: the recognition dictionary, the lines of a UTF-8 text;
  - `engine.rs`: the OCR engine, the geometry of the recognition input and the pool of
    recognition sessions;
  - `ordering.rs`: which recognitions become text blocks, and the stable ordering of the
    blocks (horizontal, vertical or by score);
  - `orientation.rs`: the document orientation classifier and the rotation that turns a
    document upright;
  - `error.rs`, `sync.rs`: the error type and the locks.
- `tests/` exercises the library on concrete values.
- `app/` holds what Verus does not take: serialisable copies of the types, the error
  messages, the floating-point geometry of text blocks, the query of the machine's
  cores and the process's one ONNX Runtime environment.
