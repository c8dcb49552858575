# ram_agent

An agent that lends RAM between the nodes of a Proxmox cluster. A node whose
memory is saturated (more than 80 % in use) asks its peers how much memory
they have free, matches the needs of its VMs with their offers, and asks a
donor for a swap space: the donor makes a tmpfs, exposes a swap file in it
with `nbd-server`, and the receiver attaches it with `nbd-client` and swaps
on it. The receiver gives the space back once it has stayed empty for two
minutes; the donor, after a delay, asks the receiver whether it still needs it.

## Layout

- `src/` is the library, verified with Verus: reading `/proc/meminfo` and
  `/proc/swaps`, the JSON-RPC messages and their answers, the matching of
  needs with offers, the plans of commands for NBD, local swap and NFS
  spaces, the watches of remote spaces on both sides, the Proxmox answers.
  `src/lois.rs` states what holds across calls: release after the delay,
  what a check of the watched spaces keeps and releases, the margins of the
  matching, and what one agent reads back of what another wrote.
- `app/` is the program around it: configuration, threads, TCP, serde_json,
  running the commands, the clock.
- `tests/` runs the library on concrete values.
