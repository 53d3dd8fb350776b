# ffmpegx

Encoding helpers around the `ffmpeg` command-line tool, verified with Verus.

- `src/` — the verified library:
  - `codec.rs`: video codecs, encoder presets, hardware acceleration and their `ffmpeg` names;
  - `options.rs`: video and GIF encoding options and their defaults;
  - `frames.rs`: frame sequences found from a directory listing;
  - `args.rs`: the exact argument lists handed to `ffmpeg` for each job;
  - `job.rs`: plans of steps and the job that carries one out, action by action;
  - `encode.rs`: the encoding and merging jobs of an `ffmpeg` installation;
  - `text.rs`: decimal text, argument lists and the `std` text and path operations used.
- `app/` — performs the jobs: file system, processes, logging, floating-point options.
- `tests/` — tests of the library on concrete values.
