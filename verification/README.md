# mew

Run instrumentation of the Mew trading runtime, verified with Verus.

A run is recorded by `MewInstrumentation`: it follows one session per mint from the first sighting to
the closed position, numbers and attributes every event, masks secrets before they are exported and
says which files are to be written. The library itself touches no file; it hands out `Action`s, and
the program under `app/` performs them.

| module | what it holds |
| --- | --- |
| `instrumentation` | the recorder and its operations |
| `run`, `history` | a run as a mathematical value, and what each operation makes of it |
| `laws`, `accounts`, `artifacts`, `reports` | what holds over any history of a run |
| `handouts` | the same where requests are handed out while the run goes on |
| `session`, `candidates`, `counts` | sessions, candidates and counters |
| `events`, `export`, `layout`, `settings` | the documents and their parts |
| `json`, `paths`, `actions`, `render` | documents, paths and requests as values, and their text |
| `clock`, `double`, `text`, `secrets`, `identity`, `known` | times, numbers, texts and names |
| `startup` | the decisions around the start of the program |

Numbers in double precision are carried as their bits: the library compares them, and leaves the
percentages that it reports to be evaluated where they are written.
