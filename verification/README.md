# git-flow-tui

A helper for the git-flow branching model: `feature/`, `bugfix/`, `hotfix/`
and `release/` branches are started and finished with a fixed sequence of
`git` operations, from the command line (`git-flow <kind> <name> start|finish`)
or from a terminal interface (`git-flow-tui`).

The library in `src/` is verified with Verus:

- `text` — lines, trimming, replacing, splitting and number formatting, each
  against a specification of what the standard library function computes;
- `shell` — what a finished program's status and output amount to;
- `git` — the `git` commands, the reading of branch listings, and what each
  operation makes of its command's outcome (`GitWrapper`);
- `logic` — the pipeline that checks preconditions and runs steps, as a state
  machine that asks for commands and is handed their outcomes, and the
  git-flow operations built on it;
- `ui` — for each kind of branch and each screen, where a key press leads,
  what it does to the screen's state, and what the screen says;
- `laws` — properties that span functions and calls.

`app/` runs `git`, the threads, the command line and the terminal: it
carries out the commands and screen changes the library asks for, and draws
what the library says the screens show.
