# matter_stack

Building blocks of a Matter device stack, verified with [Verus](https://github.com/verus-lang/verus).

The library decides; it does no I/O of its own.

- `bump`, `bump_alloc`: where the objects of a bump allocator go in its memory.
- `rand`: a CSPRNG that is reseeded after a number of bytes, on top of `rand_chacha`.
- `endpoints`: the handler chains of the root endpoint, and where each operation ends up.
- `wireless::window`, `wireless::gatt`: when BLE is advertised, as the commissioning window opens
  and closes.
- `wireless::wifi`: sharing one radio between BLE and Wifi.
- `wireless::net_ctl`: the network controller, before and after there is an operational one.
- `stack`, `tasks`, `eth`, `network`, `persist`: startup, run and reset of the stack, its tasks and
  its buffers.
- `udp`, `ble`, `error`: sockets, peripherals and errors, as plain values.

`app/` is the asynchronous side: memory, timers, sockets and tasks. It performs what the library
decides, over the services of a `Device`, and reports back what has happened.
