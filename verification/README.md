# ffmpeg_gui

A front end for FFmpeg: the user picks an operation (convert, compress,
resize, crop, rotate, filter, trim, merge, split, subtitles, watermarks,
frames, GIFs, batches), files and settings; the tool checks the choices,
builds the FFmpeg command line, queues the task and runs it.

The library under `src/` holds that logic, verified with Verus:

- `text`, `paths`, `language` - strings as character sequences, Unix paths,
  and the interface texts in Chinese and English.
- `settings`, `codecs`, `presets` - the settings model, which encoders suit
  which containers, and the built-in encoding presets.
- `naming`, `preview`, `commands` - output names, the command shown to the
  user, and the arguments each operation runs.
- `progress`, `executor` - reading FFmpeg's log, and the task queue with its
  worker's decisions.
- `session`, `panels`, `ui` - the editing session (including the
  compatibility warning and project files), what the settings panels decide
  and show, and the output field.
- `history`, `workflow` - the undo history of the workflow editor, where a
  dropped file goes among its nodes, and whether a workflow can run.

`app/` is a command-line program around the library: it reads arguments,
probes files with `ffprobe`, runs `ffmpeg`, and saves and loads presets and
projects as JSON.
