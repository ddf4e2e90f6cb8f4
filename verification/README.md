# folco

Folder icon customization: recolor a folder icon toward a target color,
imprint a decal, draw a color dot, or composite an overlay image, on the
system folder icon (as pixels or as scalable SVG) or on an image of the
user's own, and apply the result to folders.

## Layout

- `src/` is the verified library, checked with Verus:
  - `geometry`, `icon`, `color`, `scale`: rectangles, icon images and sets,
    color configurations, scales in ten-thousandths of the content bounds.
  - `source`, `codec`, `markup`, `text`: SVG, emoji and raster sources,
    PNG coding, recoloring SVG markup, text helpers with exact contracts.
  - `layer`, `decal`, `overlay`, `dot`: layer state, versions and per-size
    caches; the configurations of each layer and where it draws.
  - `svg_layer`, `medium`: the vector medium, which nests fragments into the
    base SVG document.
  - `profile`, `capabilities`, `customizer`: profiles, which layers a base
    can realize, and the customizers that apply and export profiles.
  - `cache`, `context`, `progress`, `cli_input`, `theme`, `transfer`,
    `core_error`: where the icon cache lives, the pipeline chosen for the
    system icon, batch progress, command-line source handling, the startup
    theme, and icon bases in transferable form.
- `app/` is the command-line program around it: argument parsing, file and
  system access, the floating-point pixel pipeline, and the JSON form of
  profiles.
- `tests/` exercises the library.
