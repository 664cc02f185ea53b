# java_access_bridge

A client of the Java Access Bridge, the Windows library through which assistive programs
read the accessibility tree of Java applications.

- `src/` is the verified core. It holds the bridge's role names and their parsing, the
  records the bridge answers with, the accessible objects and tables built from those
  records, the decoding and encoding of the bridge's UTF-16 buffers, the registry of event
  listeners, the order in which the bridge's library is looked for, and the decision of the
  message loop. Every function there carries a contract checked by Verus; the laws that
  relate several functions are public proof functions beside them.
- `app/` is the plumbing around it: loading the library, calling its C functions through
  pointers, the Windows message queue, the native event callbacks, the file system and the
  environment. It asks the bridge, hands the answers to the core as plain values and acts on
  what the core returns.
- `tests/` runs the core on concrete values.
