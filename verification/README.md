# prism

The decisions of a terminal dashboard for Git worktrees and the coding agents that work in
them, verified with Verus. The dashboard lists repositories and worktrees, opens agents in
tmux sessions, follows background work, changes remotes without ever losing sight of a change
whose result is not sure, and ends in bounded time.

- `src/` is the library. Every function has a contract that says what it returns and what it
  changes, and Verus proves it. Functions named `law_...` state what holds of several
  functions together.
  - `input`, `commands`, `dashboard`, `tui`: keys, commands, events and the dashboard as a whole
  - `navigation`, `navigation_laws`, `order`, `keys`, `model`: repositories, worktrees, lists
    and selections
  - `dialog`, `toggle`, `form`, `notices`: dialogs and texts
  - `tmux`, `tmux_flow`, `tmux_laws`, `shell`: tmux sessions, as sequences of calls
  - `agent_state`, `harness`: agents and the programs that they run in
  - `jobs`, `tracker`, `background`, `background_runtime`, `routing`, `shutdown`: background
    work, markers of changes to remotes, and the end
  - `runs`, `run_book`, `git_actions`, `status`, `frame`: plans, runs, actions, figures and what
    is drawn
  - `table`, `text`: tables, sets and texts
- `tests/` runs the library on examples.
- `app/` is ordinary Rust around the library: the terminal, tmux processes, threads, and the
  loop. It tests what the library asks for before each call.
