# omagari

A particle-effect editor for Bevy and the Hanabi particle system, with a plugin that plays
the effects it exports.

- `src/` is the verified library: which files are projects and what their exports are
  called (`files`), how the rows of editable lists are moved and removed (`lists`), which
  effect follows which when a group of effects is spawned (`spawn`), in which steps an
  effect asset is put together from its shape and modifiers (`assembly`), and the names,
  labels and defaults of the editor's settings and particle attributes (`settings`,
  `attributes`). `text` holds the string helpers these use.
- `app/` is the editor program around it: the Bevy app, the egui panels, file input and
  output, the expression and modifier editors (whose values are floating point), and the
  plugin that loads and spawns exported effects.
- `tests/` runs the library on concrete values.
