# Lumagen

The core of a PBR material studio: one seamless albedo becomes a full, pixel-aligned set of
maps (roughness, metallic, normal, displacement, AO, emission, transparency) that is refined,
saved and exported.

The library in `src/` holds the studio's state and the decisions about it, written in Rust and
verified with Verus. Its functions state what they do over a mathematical model of the state;
`src/laws/` states what holds across several of them. The state never touches a file, a network
or a GPU: what it asks of the outside it puts, in order, into a list of effects, and what comes
back it takes as a result.

- `state/` — the workspace: maps and versions, documents and undo, sessions, generation, refine,
  saving and opening, preferences
- `render/` — tasks, results, decoding masters, opening documents, importing folders
- `library`, `modals`, `workspace`, `settings`, `app` — what each screen shows and does
- `preview`, `theme`, `widgets`, `brand`, `secrets` — meshes and lighting, colors, toasts, the
  window icon, vault answers
- `data`, `document`, `pixels`, `store`, `text` — maps, documents, pixel buffers, tables, strings
- `laws/` — properties that span operations

`app/` is the desktop application around it: windows and widgets, the shader, the worker thread,
the async runtime, the credential vault, and the bridge to `lumagen_core`, which renders, derives,
encodes and talks to providers. `tests/` exercises the library from outside.
