# ranim (verified core)

The bookkeeping core of the ranim animation engine, written in Verus.

- `src/items.rs`: item ids, the counter that allocates them, typed item ids
  and groups of items. The counter hands out every id at most once until it
  wraps around.
- `src/utils/gpu.rs`: GPU buffers that hold one value or a slice of values.
  The CPU side records the size and usages of each wgpu buffer, decides when a
  buffer must be reallocated, and only issues the writes that wgpu accepts.
- `src/utils/typst.rs`: removal of the first path element from the SVG that
  typst produces, through the `regex` crate.
- `app/`: acquiring a GPU, reading buffers back, running the typst compiler,
  the process-wide id counter, serde forms of ids, and boxed renderables.
