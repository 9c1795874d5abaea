# tabnas-feed

RSS (0.90, 0.91, 0.92, 1.0, 2.0) and Atom (0.3, 1.0) feeds for the
`tabnas` parsing engine. The plugin installs `tabnas-xml` and, when the
XML rule closes over a finished document element, turns the element tree
into one of three shapes: the normalised Atom shape (the default), the
source dialect's own shape (`native`), or the element tree itself (`raw`).

## Layout

- `src/` is the verified library. Every function in it carries a
  contract proved by Verus over a mathematical model of the value tree
  (`Json`, the view of `Value`).
  - `value`, `text`, `element`, `object`: the value tree, the
    JavaScript reading of text (`trim`, `parseInt`), reading elements and
    building objects.
  - `detect`: the dialect table.
  - `atom`, `rss`, `each`: each dialect read into its own shape.
  - `pattern`: the RSS author pattern, matched by the `regex` crate.
  - `to_atom`: RSS and RDF mapped onto the Atom shape.
  - `options`, `convert`: the option bag, the pipeline, and the decision
    taken when the XML rule closes.
  - `laws`: properties of the library as a whole, proved.
- `app/` is the plugin itself: the engine's value converted to and from
  the library's, the plugin installed on a parser, and the hook that
  carries out what `convert::on_xml_close` decides.
- `tests/` runs the library against trees that `tabnas-xml` produces.

Numbers are carried in the library as decimal text (`NaN` for the
missing number); `app/` turns them into the engine's doubles.
