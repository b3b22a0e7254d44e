# tide (verified core)

The decisions of a small HTTP server, written in Verus with their contracts
proved:

- `server`: which file a request for a static directory names, whether that
  file may be served (its canonical path must extend the requested path,
  component by component), and the status of the answer.
- `listener`: which transport a listener description names (a TCP host and
  port, or a Unix socket path), the errors for the descriptions that are
  refused, and how listening on several transports at once ends.
- `error`: a middleware that hands errors of one type to a mapper and passes
  every other response along.

`app/` holds the I/O around it: canonicalizing and opening files, resolving
host names, spawning listener tasks, and awaiting the mapper's futures.
