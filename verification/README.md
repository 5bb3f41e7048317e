# webdir

A small web server that turns a local directory into a browsable, readable and
reviewable workspace: directory listings and a gallery, text, image, video, Draw.io
and Markdown viewers, review threads beside Markdown files, comments on gallery
images, favourites and share links.

The decisions the server makes are a library verified with Verus (`src/`):

- `url`, `paths`: percent-encoding, query strings, cookies, path components and the
  URLs of paths; a URL made from a path resolves back to it.
- `http`, `respond`, `routing`: request headers, byte ranges, access tokens and what
  each request gets, down to the response heads.
- `kinds`, `viewer`, `sizes`: file kinds, MIME types, text detection and sizes.
- `pages`, `directory`, `scripts`, `assets`: the HTML pages.
- `review`, `gallery`: review threads and gallery comments, and who is reviewing.
- `favourites`, `groups`, `likeness`, `similarity`, `sharing`, `digest`, `thumbnail`,
  `syntax`: favourite directories, likeness groups and chains, share tokens, versions,
  previews and highlighting.
- `markdown`: the article HTML of a Markdown file, written by pulldown-cmark, with
  its UTF-16 source marks.

`app/` is the program around it: sockets, files, the SQLite state store, the
WebSocket loop and the floating-point image features, whose separations reach the
library as ranks. `tests/` exercises the library.

Collaborative editing of Markdown (the `?mode=collab` socket) is not available:
the program answers it with `501`, and the editor saves with `PUT ?mode=raw`. The
thumbnail cache is not kept either; previews are made on each request.
