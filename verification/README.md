# icicle_host

The host-facing parts of an emulator, verified with Verus: the sockets a guest
program sees, and the engine that runs a guest natively through KVM.

- `src/socket/`: Unix, TCP, UDP and netlink sockets in inodes; network access
  goes through a `NetBackend` that the embedder installs, or not at all. What a
  socket asks of it is recorded in specifications (`net`), so that contracts say
  which calls are made and that no other one is.
- `src/fs.rs`: inodes, their file system, byte streams.
- `src/kvm/`: construction and teardown of a VM (`vcpu`), guest memory and page
  table (`vcpu`, `host`, `paging`), registers and kernel structures (`x86`, `abi`), and
  the run loop (`runloop`), each as a function from what the kernel answered to
  what has to be asked of it next.
- `src/le.rs`: little-endian numbers in byte buffers.
- `app/`: the kernel calls themselves, shared inodes, and standard traits.

Functions named `law_*` state what holds of the library as a whole.
