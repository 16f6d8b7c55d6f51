# agent

A Linux security agent: eBPF programs report file opens and network
connects through a ring buffer; the agent decodes each record, forwards
valid events to a backend over HTTP (with retries) and to a local consumer.

- `src/` — the verified library (Verus): `events` (record decoding, event
  rendering), `ebpf` (what to do with each record), `networks` (backend
  client, retry plan, status handling), `config` (settings), `text`
  (decimal rendering and parsing, UTF-8 conversion), `errors`.
- `app/` — the program around it: loading and attaching the eBPF programs,
  the ring-buffer loop, HTTP requests, logging, the async runtime.
- `tests/` — tests of the library.
