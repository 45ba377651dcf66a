# r3data

A desktop tool for digitizing data points from plot images: load a chart image, calibrate its
axes, and extract the underlying (x, y) values by clicking points or auto-tracing a curve.

The crate is split in two:

- `src/` is the verified library (Verus). It holds the data model (point sources, pick and
  drag targets, sort orders, tabs, data points and the calibration record), the editing of
  the point list and its selection, the curve tracer's integer core (column scans, matching
  runs, the rightward trace) over an RGB raster, the sample graph's pixels, the PNG data URL
  built with the `image` and `base64` crates, the status texts, and the rules for restoring
  a saved project.
- `app/` is the desktop program (dioxus): the UI event loop, file dialogs and file I/O, the
  floating-point calibration arithmetic, brightness-based snapping, the sorting of points by
  calibrated value, kuva plots, and the serde copies of the library types that make up the
  `.r3data` project format.

`tests/` exercises the library through its public API.
