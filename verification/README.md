# video_viewer

A video viewer pane for a code editor, with its playback logic verified by
Verus.

- `src/` is the library. It decides: which files are videos, how a pane reacts
  to the user, the clock and the media pipeline, which steps lead to a running
  pipeline, which frame is painted. It holds no floating-point number: volumes
  and speeds are in percent, times in nanoseconds. The volumes and speeds in
  use (0, 10 and 100 percent; 50, 100, 150 and 200 percent) are whole numbers
  in this unit, so nothing is lost.
- `app/` is the pane in the editor: windows, GStreamer, the database, and the
  arithmetic of the layout, which is floating point.
- `tests/` runs the library on concrete values.

The library relies on six functions that are not verified, each behind a
function or a specification that says what is assumed of it:
`Path::extension`, `Path::file_name`, `Path::join`, `str::to_lowercase` and
`String::push` of the standard library, and `ImageBuffer::from_raw` of the
`image` crate.
