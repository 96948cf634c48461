# commons

The VFIO Discord IPC bridge lets games in a Windows VM reach the Discord client
of the Linux host: the guest end accepts the games' Discord IPC connections and
forwards each, as a session, over one TCP connection; the host end opens a
Discord IPC connection per session and relays both ways.

- `src/` is the verified library (Verus): endpoint paths (`path`), decimal text
  and socket addresses (`text`), the Discord IPC frame and the writing side of a
  Discord connection (`discord`), the bridge packets (`packet`), the session
  table with the host's and the guest's handling of packets (`session`), and the
  choice of the host's listening address (`net`).
- `app/` is the program around it: command line, sockets, IPC endpoints, the
  tokio tasks and the bincode encoding of packets. Run it as `host` or `guest`.
- `tests/` exercises the library on concrete values.
