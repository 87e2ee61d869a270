# vidioai

The rules of a studio that makes pictures and videos with local engines and a GPU
worker: what a request may ask for, which model serves it, how a run goes from step
to step, what its job is told, how models are installed, copied to a cloud store and
restored, and what a machine is.

- `src/` is the library. Every function states what it returns, and Verus proves it.
  Parts that wait for something (a run, an installation, a restoration) are state
  machines: an event goes in, a report and the next action come out.
- `tests/` runs the library on concrete values.
- `app/` is what surrounds it: the HTTP routes, the client of the worker, the native
  agent, files and processes. The catalogue, the packs and the stores come in through
  the trait of `app/outside.rs`.
