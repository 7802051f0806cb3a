# WGPUI

The parts of a GPU-accelerated UI framework whose behaviour is worth proving,
written in Verus:

- `src/flamegraph/`: capture sessions. Spans are recorded per thread, bucketed
  into frames, kept in a bounded ring, and exported in a binary trace format.
  `laws.rs` holds what is true of captures as a whole.
- `src/flamegraph_gpu/`: GPU timestamp queries. Three query generations take
  turns; each goes from recording through readback to spans.
- `src/flamegraph_replay/`: replay of captured element trees and GPU command
  streams.
- `src/elements/h_list.rs`: which items of a horizontal list are visible, and
  where it scrolls to.
- `src/platform/dispatcher.rs`: which queue a task goes to.

State that is shared, such as the active capture, the clock, the threads'
recorders and the scroll states that handles refer to, is passed in. Lengths and periods that are floating-point
numbers are carried as bit patterns. `app/` supplies both: it owns the process
state and the devices, and computes with floating-point numbers.

The trace's frame chunks are encoded by `bincode`, a thread's spans are buffered
by `circular_buffer`, its open spans are stacked in a `smallvec`, and timestamps
are read by `bytemuck`. What the proofs take on trust about those crates stands
in the doc comments of the functions marked `external_body`.
