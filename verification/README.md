# docleaf

The Rust core of Docleaf, a Sphinx extension that reads Doxygen XML output and
renders it as docutils nodes, written in Verus with its behaviour stated in
contracts and proved.

- `src/` is the verified library:
  - `xml`: the XML event model, filled from `quick_xml`, and attribute helpers.
  - `doxygen::index`, `doxygen::compound`: the readers of `index.xml` and of
    compound files, proved against reading rules stated as spec functions.
  - `doxygen::render_rules`, `doxygen::render`, `doxygen::text`: the rendering
    of compounds, members and documentation blocks into document nodes, proved
    against rendering rules; `doxygen::render_laws` proves that skipping
    `htmlonly` leaves no HTML-only node anywhere in the output.
  - `doxygen::store`: which compounds rendering refers to, and the proof that
    a store holding all of them, and all that those refer to in turn, never
    lacks a compound while rendering.
  - `doxygen::describe`: what each document node is handed to Python as.
  - `doxygen::graph`: the mermaid class diagram of an inheritance graph.
  - `xsd`: the plan of the element types that the build-time generator writes
    from the Doxygen schemas.
- `app/` is the Python extension module around the library (file loading and
  caching, the Python classes, the mermaid command) and the build-time
  generator that writes the planned types as Rust code.
- `tests/` runs the library on concrete documents.
