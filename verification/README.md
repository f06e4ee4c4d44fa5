# footage

The editing model of a video trimming and conversion tool, verified with Verus.

- `src/` is the library. Every function in it is proved against its
  `requires`/`ensures` contract, and its laws (settings keys that read back,
  orientation changes that undo, nudges that stay inside the clip, the encoder
  ranking, the offered output formats, the playback restart rule, ...) are public
  proof functions.
  - `profiles`, `encoders`: output containers and codecs, which ones can be
    offered, and how installed encoders are ranked.
  - `orientation`, `crop`, `info`: the orientation of the video as a symmetry of
    the frame, the crop box and how it follows orientation changes, picture sizes.
  - `timeline`, `preview`, `time`: the trim selection, dragging and nudging it,
    and the state of the loaded video during playback.
  - `render`, `export`: the decisions taken while rendering and on the export
    screen.
- `tests/` runs the library on concrete values.
- `app/` is the GTK/GStreamer program around the library: widgets, the playback
  and render pipelines, translations, file dialogs and the floating-point pixel
  geometry.
