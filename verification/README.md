# Drydock desktop

The Drydock desktop application as a verified library with a thin egui shell around it.

- `src/` is the library. It holds the whole state of the application (`state::DrydockApp`), every
  decision that changes it, and what every page shows. Each function has a contract that Verus proves.
- `app/` is the window: it paints what the library says, runs jobs on threads, and hands their
  answers back. What reads a disk, a network or a process stands behind the `Backend` trait.
- `tests/` runs the library on concrete values.

## How the library is written

Work that leaves the process is split in two. A `start_*` function (or one that returns an order)
decides whether the work is to run and what it needs. A `poll_*` or `*_saved` function takes the
outcome, as a `Reply` or a `Result`, and brings the state up to date. Contracts say which parts of
the state a function may change (`keeps_all_but`) and what they change to.

Times are nanoseconds since an arbitrary start. Texts are modelled by their characters. Laws that
span several functions are public proof functions at the end of their module.

The library trusts four functions of the standard library, all declared in `text`: `String::push`,
`str::to_lowercase`, `str::to_uppercase` and `char::is_whitespace`.
