# TitanHost

A launcher for a Minecraft server: it keeps server profiles, installs Java
runtimes, loaders, libraries and server cores, keeps mods and plugins in step
with their download addresses, writes the server's configuration, starts and
watches the server, queries its status, manages backups and talks to a local
ZeroTier service.

Layout:

- `src/` — the library, verified with Verus: the status protocol (variable-length
  integers, packets, reading the reply), profiles and their storage rules, the
  download and synchronization decisions, the server's command line and files,
  the console and log handling, the task and restart state of the window, backup
  names and listing, and the ZeroTier helpers.
- `tests/` — tests of the library on concrete values.
- `app/` — a console front end: file and network I/O, the server process, and
  the serializable copies of the library's types.
