# umio

A message based readiness API for a single UDP socket on top of mio.

- `src/` is the library, verified with Verus: reusable buffers and the
  buffer pool (`buffer`), the messages that clients hand to the event loop
  and the sender that carries them (`client`), the handler's decisions —
  which readiness reports call for a read or a write, the queue of outgoing
  datagrams and the interest the socket is registered with (`dispatcher`),
  the event loop builder (`eloop`), routes (`route`) and plain socket
  addresses (`address`).
- `app/` runs the loop: mio's event loop and UDP socket, the worker threads
  that fill outgoing buffers, the user's `Dispatcher`, and the conversions
  between std/mio values and the library's plain ones.
