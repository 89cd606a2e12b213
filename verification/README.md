# blue_rdma_driver

The user-space core of the Blue RDMA NIC driver, written in Verus.

- `src/` is the verified library: the layouts of the ring-buffer descriptors
  (command, send, meta report, simple NIC), the descriptor rings, the fragmentation
  of work requests into chunks and packets, completion tracking and the completion
  queues, the decisions on the device's meta reports (received headers,
  acknowledgements and NAKs), acknowledgement timers, queue pair and memory region bookkeeping, the
  command queue requests, and the memory helpers (slot allocation, page
  allocation, address resolution).
- `tests/` runs the library on concrete values.
- `app/` holds what is not verified: reading the network setup from sysfs,
  `/proc/self/pagemap`, the register access client of the emulated device, host
  page mapping, and the serde forms of the library's types.

Verify with Verus on `src/lib.rs`; the laws of the library are the public proof
functions (`lemma_*`) beside the functions they speak of.
