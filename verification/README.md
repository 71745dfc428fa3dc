# pacsea

Verified core of two parts of an Arch Linux package manager front end, written
in Verus.

- **AUR voting.** A vote is cast, removed or looked up by an SSH command. The
  library builds the command lines, reads exit code and error output, and keeps
  the paths of identity files out of what the user sees.
- **Update check.** The library decides which AUR helper to use, reads the user
  id, leads through the set-up of a temporary pacman database, and maps the
  error output of pacman to reason codes.

## Layout

| Module | Content |
| --- | --- |
| `src/text.rs`, `src/split.rs`, `src/number.rs` | text operations over sequences of characters |
| `src/process.rs` | command lines, process output, lossy decoding |
| `src/sanitize.rs` | cleaning of SSH error output |
| `src/aur_vote.rs` | types and messages of a vote |
| `src/vote_reply.rs` | reading what SSH leaves behind |
| `src/vote_transport.rs` | commands, replies, and a vote over a transport |
| `src/vote_laws.rs` | what holds of votes and look-ups as a whole |
| `src/updates_helpers.rs` | AUR helper, result of the check, reason codes |
| `src/temp_db.rs` | user id, set-up and sync of the temporary database |
| `app/` | ordinary Rust that runs the processes and touches the files |

The one thing taken on trust is `String::from_utf8_lossy`, in `src/process.rs`.
