# hydrolysis_m3

Material Design 3 (Expressive) tokens and widget-chrome decisions for WaterUI
self-drawn backends, verified with Verus.

- `src/` — the verified library. Lengths are whole dp, opacities whole
  percent, and colors Material roles (`color::ColorRole`). Each widget module
  states, for every input, the metrics, role paints, corner radii, elevation
  levels and state-layer colors the widget uses (the float geometry built on
  them is the renderer's), and proves the token laws that hold across them (the size
  scales, touch targets, disabled palettes, segment shapes, state-layer
  precedence).
- `tests/` — the token tests and the decisions on concrete values.
- `app/` — the renderer side: resolving role paints against a color scheme,
  the float geometry and animation (corner morphs, ripples, thumb travel), and
  the composed `IconButton` view.
