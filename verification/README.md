# mtk

The headless core of a declarative GUI toolkit, written in Verus: the parts of the
toolkit that decide rather than draw, each with a contract that Verus proves.

- `src/colors.rs`: RGBA colors and their packing into native 32-bit pixel words.
- `src/ui/`: view combinators and the decisions of views that change over time.
  - `either`, `keyed`, `memo`, `lens`: conditional views, keyed sequences (the plan by
    which a new sequence reuses the elements of the previous one), memoized views.
  - `sequence`: how lists and optional children are rebuilt and which children of a
    list an event reaches.
  - `event`, `focus`: event results, listeners (click, hover, press, drag, keys,
    scroll, tick) and the keyboard payload handed to key listeners.
  - `presence`, `router`, `overlay`, `layer`, `style`, `transition`: the state machines
    of animated mounting, page routing, floating overlays, layers above a base view,
    and styled views.
  - `widgets/`: the text editor and the inputs built on it, clickable widgets,
    checkboxes, radio groups, dropdowns, chips, badges, dividers, images, rich text spans and
    software pixel buffers.
- `tests/`: tests of the library on concrete values.
- `app/`: glue that Verus does not see: conversions from `winit` and `accesskit`
  events, the `switch!` macro and closures as pixel painters.

Layout, rendering, animation curves and the window system stay outside: the library
takes what they compute (hits, focus, elapsed time, whether an animation has ended) as
plain values and answers with the actions to perform.
