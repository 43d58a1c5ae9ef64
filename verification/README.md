# ocr_cli

A command-line OCR tool for PP-OCR (v4, v5, v6) models, split in two:

- `src/` is the verified library (Verus): command-line parsing (`cli`, with
  its laws in `cli_laws`), backend names (`backend`), thread counts
  (`number`), the text and JSON reports (`report`), the framing of
  recognised regions on the image (`annotate`), the model-directory listing
  (`models`), string utilities (`text`) and the embedded-model hooks
  (`embedded`).
- `app/main.rs` is the program around it: it reads the command line and the
  model directory, runs the OCR engine (`ocr-rs`), renders the
  floating-point confidences, prints, and reads and writes image files.
