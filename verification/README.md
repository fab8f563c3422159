# hitomi_downloader

The download logic of a comic downloader, verified with Verus.

- `src/` is the library: the table of download tasks and the requests on it
  (`manager.rs`), the record of a task and the file names of its images
  (`task.rs`), the steps of one comic download (`job.rs`), the decisions of
  the loops that hand out comic and image permits (`loops.rs`), the download
  directory computed from the configured format (`dir_fmt.rs`), text helpers
  (`text.rs`), and properties that span several requests (`laws.rs`).
- `app/` is the Tauri application around it: commands, events, the async
  loops, semaphores and file system work. It refers to the application's other
  modules (configuration, Hitomi client, types, events, tags, utilities).
- `tests/` runs the library on concrete values.
