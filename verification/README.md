# era-launcher

A terminal launcher for Minecraft: instances with the vanilla, Fabric and
Quilt loaders, offline accounts, Java detection and provisioning, Modrinth
content, worlds, servers, crash reports and self-update.

## Layout

- `src/` is the launcher's logic, verified with Verus: instance and account
  management, the configuration, launch planning (Java choice, libraries,
  classpath and command line), the installer's state machine, the server
  ping framing, the update checks and the terminal UI's state, key
  dispatch and focus handling. Each public function states what it
  returns or changes in its `requires`/`ensures`, over spec functions in
  the same module.
- `tests/` exercises the library on concrete values.
- `app/` is the unverified shell around it: the terminal loop and drawing,
  files, network requests, processes and threads. It hands the library
  plain values and performs the actions the library decides on.

The few calls into other crates (hashing, hex, uuid, the clock) and into
std functions that Verus does not specify sit behind small trusted
wrappers, each with a doc comment saying what its contract assumes.
