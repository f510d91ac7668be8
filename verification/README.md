# Lumen Frame

Borders, shadows and EXIF captions for photos, with the byte-level container work
behind Ultra HDR gain maps and Google Motion Photos.

- `src/` is the library, verified with Verus: preset names and catalogues, the JPEG
  segment walk and GContainer XMP of gain maps, the Motion Photo container, export order and clip
  editor, EXIF fraction display, caption templates, the integer layout of the watermark canvas, the preview and
  export schedules, the update-check protocol, and the text forms of colours and labels.
  Each public function states its result in `ensures`; the laws that relate several
  calls are the public `lemma_*` proof functions.
- `tests/` runs the library on concrete values.
- `app/` is a small command-line program around the library: it reads and writes the
  files, runs FFmpeg and FFprobe, asks GitHub Releases for updates, and formats the
  floating-point values (shutter speeds, bitrates, seconds) that the library leaves to
  it.

Pixel work (compositing, shadows, rounded corners, gain map encoding) belongs to libvips
and is not part of this crate.
