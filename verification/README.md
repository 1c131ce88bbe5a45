# Drill

Drill analyzes binary files (firmware, executables, disk images, ROMs) as a
tree of nodes: it looks for the magic values of a signature database, asks a
detector about each place it found one, and analyzes every file a detector
extracts one level deeper. The result is a JSON manifest of the tree; the file
itself is only read.

The library under `src/` is verified with Verus:

- `drill_engine` — signatures, the candidate search, the detectors (PNG, BMP,
  ELF, Java class, ZIP, generic magic, external tools), hashes and nodes;
- `analysis` — one analysis as a sequence of steps, each stated exactly, so
  that the caller can run external tools between steps;
- `adapters` — the registered external tools, how each is run, and how the
  outcome of a run is judged;
- `icon_catalog`, `window`, `application` — the decisions behind the user
  interface: icons, the tree rows, the layer "onion" and its zoom, the
  preferences.

`app/` is a command-line front end: it reads the database and the file, runs
the analysis, starts the external tools it asks for and writes the manifest.
