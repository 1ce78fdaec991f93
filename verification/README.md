# pb_covers

Shows the covers of the e-books in a directory on a PocketBook reader, one
at a time, cycling on by key press or timer.

- `src/` is the verified library: choosing the books among a directory's
  entries (`cover`), finding an EPUB book's cover through its container and
  package documents (`epub`, `xml`), rendering a PDF book's first page
  (`pdf`), and the viewer's state with its position, overlay, orientation and
  caches, and how it answers key presses and the timer (`state`,
  `orientation`). Calls into `zip`, `roxmltree`, `image`,
  `hayro` and `std::path` go through small trusted functions whose contracts
  say what the library relies on.
- `app/` holds the programs: extracting a cover to an image file, the desktop
  simulator, and the program for the reader, with the file-system access and
  the drawing.
- `tests/` exercises the library on concrete books built in memory.
