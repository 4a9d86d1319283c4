# landrop

Peer-to-peer file transfer on the local network: discovery by UDP broadcast and
mDNS, pairing with a six-digit PIN and trust on first use of the peer's TLS
certificate, and transfers of files and directories in 256 KiB chunks that resume
where the receiver stopped.

- `src/` is the library, verified with Verus: the framing codec and the protocol
  messages, the device identity and fingerprints, PIN pairing, the trust store and
  the certificate check, the manifest and the receiver's destination checks, the
  sending and receiving sessions, the engine's decisions, the tables of discovered
  devices, and what the user interface is shown.
- `app/` is the program around it: sockets, TLS streams, files on disk, timers,
  serialization, and the speed estimate (floating point).
- `tests/` runs the library on concrete values.
