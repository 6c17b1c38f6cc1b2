# LightSync

Screen-synchronized lighting for Philips Hue entertainment areas: the colors of the
desktop are captured, averaged around the position of each light and streamed to the
bridge.

The crate is a library of verified Rust. `src/` holds the rules of the program, each
function with a contract that Verus proves; `app/` holds what talks to the outside
world and calls the library.

| Module | What it holds |
| --- | --- |
| `text`, `encoding` | Strings, hexadecimal text, identifiers, UTF-8 |
| `number` | Floating-point numbers as bit patterns |
| `domain` | Configuration, status, requests and answers, with their validation |
| `ipc` | Records on the local socket, versions and sequence numbers, the client |
| `capture` | Frames, their formats, the portal's steps, the PipeWire stream, PPM images |
| `engine` | Presets, the cells that are sampled, the processor of the colors |
| `hue` | Bridges, credentials, lights, areas, the packets and the mailbox of a stream |
| `daemon` | The service: profiles, pairing, starting and stopping, files, dispatch |
| `cli` | Values, commands and reports of the command line |
| `gui` | The model of the window, what it shows, and its texts |

A function named `law_...` is a property of the library as a whole, proved from the
definitions that the contracts use. What is believed of outside crates stands in
functions marked `external_body`, in `encoding` and `gui::i18n`, each with a comment
that says what it claims.

The programs `lightsyncd`, `lightsync-gui` and `lightsync` are one binary that acts by
the name it is called under.
