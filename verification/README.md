# illumos_ugen

USB access through the `ugen` driver of illumos, with the rules of the library
verified by Verus.

`src/` is the library. It performs no I/O: it decides which device nodes are
opened, which bytes are written to them, how much is read, how queued transfers
complete and how failures are reported. Each longer exchange is a state machine
that says what to do next and is told what came of it.

| Module | What it holds |
| --- | --- |
| `usb`, `descriptor` | control requests, setup packets, the reading of descriptors |
| `node`, `paths`, `text` | names and flags of device nodes, where they are found |
| `errno`, `error`, `host` | error numbers and what they mean, asking the system for its codes |
| `buffer`, `transfer`, `control` | a single transfer, bulk or control, from request to completion |
| `endpoint` | the queue of an endpoint |
| `opening`, `device` | the opening of a device and what is known of it |
| `claim`, `interface` | the claiming of an interface and the use of its endpoints |

Error numbers, open flags and the codes of asynchronous requests differ between
systems. They come from `rustix` and `libc` through three small trusted
functions (`host_errnos`, `host_open_bits`, `host_aio_codes`). What depends on
them takes them as an argument, but for `errno_to_transfer_error` and
`RawEndpoint::open_flags`, which ask the system themselves.

`app/` opens, reads and writes the nodes and runs the asynchronous requests.
`tests/` runs the library on concrete values.
