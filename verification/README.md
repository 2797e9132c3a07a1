# batman_robin

A library for managing batman-adv mesh interfaces, with its decisions and
data transformations verified by Verus.

- `src/` is the verified library: mesh selector validation (`mesh`), kernel
  uevent decoding (`uevent`), gateway events (`gateway_event`), MAC
  addresses (`mac`), the model of the netlink messages exchanged with the
  kernel (`netlink`), the requests of each operation and the interpretation
  of the kernel's replies (`commands`), selector resolution (`client`), the
  text of the command line tool (`cli`), character-level helpers (`text`)
  and the properties relating several operations (`laws`).
- `app/` is the `robctl` command line tool: netlink sockets, the
  asynchronous client operations, uevent listening and printing.
- `tests/` exercises the library on concrete values.
