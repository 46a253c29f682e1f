# cloud_manage

Tooling for Oracle Cloud Always Free instances and Cloudflare DNS: launch
and snipe instances, replace an instance's public IPv4 address (and move
the DNS `A` records that pointed to it), manage DNS records, a
configuration wizard, and a small web API.

## Layout

- `src/` is the library, written in Verus. Every function carries a
  contract that Verus proves:
  - `oracle`, `oci_models`, `oci_compute`, `oci_signer`, `oci_auth`: shape
    rules, instance configuration, launch requests, request signing, API
    paths, and reading OCI credential profiles;
  - `cloudflare`, `dns`: upsert planning, zone resolution, API error
    messages and the record table;
  - `config`, `wizard`, `editor`: the configuration model, the wizard's
    defaults and answers, and the ghost-text line editor;
  - `operations`, `utils`, `web`: instance ordering, the snipe loop's
    decisions, error classification and the web API's checks and views;
  - `text`, `tags`: string and key/value helpers with their specifications.
- `tests/` runs the library on concrete values.
- `app/` is the program around it: command line, prompts, HTTP transport,
  the configuration file and the web server.
