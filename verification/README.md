# lolcap

A recorder for League of Legends on Windows. While the game window has the
focus it captures a video of the window and logs every keyboard and mouse event
to a Parquet file beside the video.

The decisions are a library, verified with Verus; what works on the operating
system is a thin program around it.

| module     | what it holds                                                      |
| ---------- | ------------------------------------------------------------------ |
| `text`     | numerals, replacement, UTF-16                                      |
| `session`  | session numbers, the files of a session, the shared state          |
| `columns`  | the columns of the input log, and what is trusted of arrow/parquet |
| `input`    | the buffered log of input events                                   |
| `focus`    | window titles, changes of focus, debouncing                        |
| `capture`  | the search for the window, the encoder, the frames                 |
| `threads`  | the check of the recording threads                                 |
| `recorder` | how a recording is started and stopped                             |
| `messages` | the message loop                                                   |
| `error`    | the failures of a recording                                        |

`src/` is the library, `tests/` its tests, and `app/` the program.

Starting, stopping, checking the threads and running the message loop alternate
between decisions and work on the system. Each is a step function: it takes in
what was done last and returns what is to be done next. The program performs
that, and ends the procedure where it fails.
