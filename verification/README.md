# omp

The logic of an OMP agent integration, verified with Verus: the frames that an
OMP child and its sessions exchange, the discovery of the binary and of a
workspace's configuration, read-only GitHub and Linear context, user-initiated
workspace tasks, the tree of subagents, and the prompts that ask the user.

- `src/` is the verified library.
  - `text`, `json`: texts and JSON values.
  - `protocol`, `session`, `connection`: what a child's frames mean, what a
    session waits for, and the sessions of a connection.
  - `discovery`: the binary, the settings, the workspace and the launch.
  - `github`, `linear`, `terminal`: what is asked of `gh`, of Linear and of the
    shell, and what the answers show.
  - `subagents`: the rows that a tree of subagents shows.
  - `ui`, `github_view`, `linear_view`, `terminal_view`, `subagent_tree`,
    `ui_request_prompt`: what the panels show, and what pressing
    their controls does.
- `app/` starts the children, reads the environment and the file system, talks
  HTTP, and turns the panels into elements that can be pressed.
- `tests/` runs the library.
