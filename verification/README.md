# typed_fuse

Typed FUSE filesystems in Rust, with contracts that Verus checks.

A filesystem implements one of two interfaces:

- `NodeFs`, in terms of nodes. The runtime identifies them and keeps their payloads.
- `PathFilesystem`, in terms of absolute virtual paths. `PathNodeFs` adapts it to nodes.

`src/` is the library. Its functions are verified. What they take on trust from outside
are eight items, each with the claim made of it in its doc comment:

- `errno::libc_error_numbers`, `conv::libc_file_types`, `file_lock::libc_lock_types` and
  `passthrough::libc_utime_omit`: the values of constants of the `libc` crate;
- `errno::ExIoError`, `errno::os_error_number` and the contract of
  `std::io::Error::raw_os_error`: the error number of an I/O error;
- `passthrough::system_clock`: a reading of `std::time::SystemTime`.

| Module | Contents |
| --- | --- |
| `errno`, `time`, `attr` | error numbers, points in time, attributes |
| `node_id`, `cx` | node identity, and the table of live nodes with their lifetimes |
| `node_fs` | `NodeFs` and the values it exchanges with the runtime |
| `path_fs` | `PathFilesystem` and directory snapshots |
| `replay` | the resume cookies of listings |
| `dentry`, `namespace` | names, and the paths that follow from them |
| `tree` | the namespace and the node table together, and their laws |
| `discovery` | listings, and how they discover nodes or take that back |
| `path_node_fs` | the adapter from paths to nodes |
| `conv`, `ffi`, `file_lock` | the records of the low-level interface |
| `darwin` | the records and the error number that differ on macOS |
| `mount` | mount settings, options and dispatch |
| `passthrough` | decisions for filesystems over a backing directory tree |
| `bytes`, `text` | byte strings and text |

Proof functions whose names begin with `law_` state what holds across several functions,
such as that a directory that moves takes along what is below it.

`app/` is ordinary Rust around the library: system calls, locks, and the bindings to
libfuse. `tests/` runs the library on concrete values.

Where the C interface differs between platforms, the library follows Linux on x86-64; the
records of macOS stand beside those in `darwin`. `app/` is for Linux.
