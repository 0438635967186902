# x-log

A logger that hands formatting and file output to a background worker and
rotates its file when the file reaches a size limit.

- `src/` is the verified library: backend configuration and its builder
  (`backend`), line framing, byte counts and rotated file names (`text`),
  timestamps (`clock`), rotation targets (`rotation`), the worker as a state
  machine that takes an event and answers with the next file operation
  (`worker`), the process-wide logger's bookkeeping (`log`), and the proved
  properties of these (`laws`).
- `app/` runs it: the channel, the worker thread performing the operations the
  worker asks for, the `Log` guard that shuts down on drop, and the `log!`
  macros.
- `tests/` drives the library on concrete values.
