# datadog-mcp

A Model Context Protocol server that gives AI assistants access to Datadog:
metrics, monitors, dashboards, logs, events, infrastructure, downtimes,
synthetics, incidents, SLOs, notebooks, teams and users.

The decisions the server makes are a library verified with Verus; the
program around it talks to Datadog, the file system and the MCP client.

## Layout

- `src/` — the verified library.
  - `sanitize`, `input_validation`: cleaning and checking user input.
  - `server`, `state`: the tool catalogue, read-only mode and which
    responses may be cached.
  - `response`, `output`, `errors`, `ids`: response checks, output formats,
    error codes and identifiers.
  - `cache`: cache directory choice, file names, retention, the size bound
    (oldest files first) and the checks on files read back.
  - `tools/`: per domain, how a tool's request is prepared and its response
    summarized.
  - `text`: character classes, string building and the order of strings.
- `app/` — the server program: command line, Datadog client, cache files,
  MCP transport.
- `tests/` — tests of the library.

## Safety defaults

- Tools that create, update, delete, trigger or cancel something are refused
  unless the server starts with `--allow-write`.
- Responses are cached only with `--cache-responses`; log, user, event,
  incident and security-rule responses are never cached.
- The cache is kept within `--cache-max-mib`, removing the oldest files
  first, and files older than `--cache-retention-hours` are removed at
  start-up.
