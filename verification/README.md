# svg2gcode settings

`src/` is a Verus-verified library holding the configuration types of an
SVG-to-G-Code converter (`Settings`, `MachineConfig`, `PostprocessConfig`,
`SupportedFunctionality`, `Version`) and the rules that upgrade stored settings
to the most recent version. Each type has a mathematical view; the upgrade is
specified by the spec function `upgraded`, and its laws (idempotence, no-op at
the latest version, only the version and end sequence change) are proof
functions in `src/settings.rs`. `Version` has a hand-written order (V0, then V5,
then unknown versions by their UTF-8 text) whose laws are in `src/version.rs`,
built on the lexicographic byte order of `src/lexicographic.rs`.

`app/` holds what the verifier cannot take: serde-enabled copies of the
settings types with conversions in both directions, and the turtle-graphics
geometry (bounding boxes, outline collection, scanline hatch fill), which
computes on `f64` coordinates through `lyon_geom`.
