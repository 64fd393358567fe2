# fuser

The decisions of a FUSE session, verified with Verus: which mount options go together and what
they mean to the kernel, how a session and the kernel agree on a version, which calls may use the
channel that carries requests and replies, and who owns what a mounted session holds until it is
released.

- `src/` is the library. It does no I/O. Where a decision depends on a system call, a native
  library or a thread, a function takes what the call returned and says what to do next, or takes
  the call as a closure. Each function states in its contract what it returns for every input,
  up to what its system decides; the proof functions named `law_*` state what holds over several
  calls.
- `tests/` runs the library on concrete values.
- `app/` performs what the library asks for: it opens devices, calls libfuse, starts threads and
  reads the clock. `app/protocol.rs` names what a wire format and a filesystem have to provide.

## Where to look

| Subject | Files |
| --- | --- |
| Mount options, access, arguments for libfuse | `mount_options.rs`, `option_laws.rs`, `acl.rs`, `fuse_args.rs` |
| Capability flags | `init_flags.rs` |
| Device channel | `channel.rs`, `errno.rs` |
| Message channel of macFUSE | `darwin.rs`, `darwin/` |
| Mounts by libfuse 2 and 3 | `mount.rs`, `fuse2.rs`, `fuse2/`, `fuse3.rs`, `fuse3/` |
| Session, handshake, session loop | `session.rs`, `handshake.rs`, `run.rs` |
| Background dispatch and its shutdown | `dispatch.rs`, `dispatch/`, `background.rs` |
| Recoverable construction | `owner.rs` |

## What is trusted

The functions marked `external_body` call `nix` or the formatter of the standard library; their
contracts are taken on trust, and their doc comments say what they claim. Three of them depend on
the system that the library runs on: which error codes above 34 nix knows (`errno.rs`), which file
flags it knows, and by which bit a file that does not block is marked (`channel.rs`). Their values
are left open there; that `errno_from_raw` and `nonblocking_flags` use what nix gives for their own
argument is stated and proved.
