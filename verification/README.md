# gstopentok

The logic of a GStreamer plugin that publishes and subscribes to OpenTok audio and video streams,
verified with Verus.

- `src/` is the library. It decides; it does not touch GStreamer, OpenTok, processes or the
  network. `common` holds the credentials, urls, formats and messages, `opentoksrc` and
  `opentoksink_remote` the two elements, `helper` the process in which an element runs on behalf
  of another process. What is done to GStreamer objects is a plan (`plan`): a list of steps, each
  with what its failure leads to.
- `app/` is the plugin around the library: it carries out the plans, runs the threads, the helper
  process and the channels between the processes, and asks a room for its credentials.
- `tests/` holds tests of the library.

The library trusts `url`, `json`, `uuid`, `byte-slice-cast`, `std::path` and `String::push` for
what the doc comments of the functions that call them say.
