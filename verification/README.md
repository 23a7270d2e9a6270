# ferrite

The verified core of a small Minecraft-protocol client, written in Verus.

- `src/` — the library. Its functions carry contracts that Verus proves; the calls
  into outside crates (`bytes`, `glam`, `uuid`, `md-5`, `flate2`, `rsa`, `rand`) and
  `String::from_utf8` sit behind small trusted wrappers whose contracts are taken on
  trust, each documented at its declaration. It holds:
  - block states, block positions (with their packed 64-bit form), directions and
    axes, integer vectors;
  - the wire format: VarInts, packet frames, status and keep-alive packets, chunk
    data decoding (paletted containers), DER unwrapping, offline-mode UUIDs;
  - the login and configuration steps: what each received packet means, the
    encryption request and response, the server's public key, the first packets sent;
  - the demo world generator;
  - rendering decisions: greedy meshing of chunks, block models and the default
    model tables, face culling and section compiling, texture-atlas packing;
  - the client's frame-loop decisions (menus, cursor grabbing, buttons, queued
    connections), and which folder names are listed as worlds, in what order.
- `tests/` — tests of the library.
- `app/` — the command-line front end and what the library leaves to ordinary Rust:
  the connection task (socket I/O and the AES stream ciphers), the local server process, worlds on disk, and the
  floating-point geometry of meshes, atlases and the debug overlay.
