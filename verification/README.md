# ferro_protect

A client library and command-line tool for the UniFi Protect local
integration API, with its logic verified by Verus.

- `src/` is the verified library. Besides the data it exchanges with the
  NVR (`models`), it holds the decisions the client and the tool make:
  building the client (`client`, `auth`, `rate_limit`), the retry policy
  (`retry`, `time`), turning error responses into errors (`error`), the
  request paths and response handling of the camera endpoints
  (`cameras`), configuration and API-key precedence (`config`,
  `api_key`, `env`), logging choices (`logging`), the text the tool prints
  (`output`, `commands`), and the preprocessing of the API's JSON Schema
  before model generation (`json`, `spec_rewrite`).
- `app/` is the program around it: argument parsing, HTTP, files, the
  environment, the logger and the terminal.
- `tests/` exercises the library on concrete values.
