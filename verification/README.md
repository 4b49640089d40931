# logger

A logger that filters messages by level and hands them to an output (the
standard output, the standard error, a file or a channel) and, when one is
attached, to syslog.

- `src/` is the verified library. It decides and does no I/O: requests go in
  through `Logger`, `next` says what to do, `succeed` and `fail` say how that
  went.
  - `level`, `facility`, `text`, `output`, `request`, `relay`: the parts.
  - `worker`, `logger`: the steps that obey requests, and the queue before them.
  - `history`, `laws`: what a run of requests amounts to, and what is proved of
    it.
- `app/` runs the library in a thread, with real files, channels and a
  connection to syslog.
- `tests/` runs the library without threads.
