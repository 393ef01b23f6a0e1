# driftwm

An infinite-canvas Wayland compositor: windows live on an endless plane, and
the screen is a camera that pans, zooms and drifts over it.

- `src/` is the decision core, verified with Verus. It computes on plain
  values: canvas geometry, snapping and clusters, the configuration and its
  bindings, focus history and actions, pointer, keyboard and gesture state
  machines, window placement, layers, the session lock, outputs, frame
  composition, blur scheduling and the capture and window-list protocols.
- `app/` is the program around it: Wayland protocol glue, rendering, files and
  processes, and the floating-point camera.
- `tests/` runs the core on concrete values.

Canvas coordinates are integers, 32000 to a pixel. Settings that are fractions
are kept in millionths.
