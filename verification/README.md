# ascii_3d

The editing and navigation core of an ASCII 3D scene editor, verified with
Verus: key routing, menus and their catalog, the object hierarchy and
properties panels, the editor session, the character canvas, scene and file
pickers, `.a3d` manifest rules and group expansion, and the small text and
number helpers these rest on.

- `src/` is the library. Its functions carry `requires`/`ensures`
  contracts, and Verus proves all of them but five small wrappers around
  std, whose contracts are trusted and say only what std documents:
  `text::push_char` (`String::push`), `pickers::lowercase`
  (`str::to_lowercase`, whose result is only named), and
  `paths::join_path`, `paths::is_absolute_path` and `paths::parent_path`
  (`Path::join`, `Path::is_absolute`, `Path::parent`). The laws of the
  library (what a pair of moves undoes, which layer answers a key first,
  what a composite group hides, what every editor session keeps) are public
  proof functions next to the code they speak of.
- `tests/` runs the library on concrete values.
- `app/` is the terminal front end: it reads keys and files, asks the
  library what they mean, and draws what the library lays out: the status
  line, menus, popups and the file picker. It does not render scenes or run
  the scene and globe viewers or the native editor, whose projection is
  floating point and whose windows come from outside crates.
