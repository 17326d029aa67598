# hashira-cli

The command line tool of the hashira framework: it creates projects from
templates, builds the server and the WebAssembly client, and runs the
application, also in a watch mode with live reload.

- `src/` is the verified library: option handling, version texts, paths,
  the download addresses and version outputs of the external tools, the
  tool cache, the command lines the tool runs, the files the build copies,
  the decisions of the watch mode, and the arguments of the framework's
  attributes. Each function carries its contract; the laws that tie
  several functions together are public proof functions next to them.
- `tests/` runs the library on concrete values.
- `app/` is the program around it: argument parsing, processes, the file
  system, downloads, the GitHub API, the file watcher and the live reload
  server.
