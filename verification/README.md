# chip-in inventory

The inventory of the SPN infrastructure: the configuration repository, backed
by etcd, that `spnhub` and `spngw` read their realms, zones, subdomains,
virtual hosts, routing chains, hubs and services from. It serves a REST API
under `/v1` on port 3000 and loads an initial configuration from a YAML file
(`CONFIG_FILE`, default `conf/config.yaml`) at startup; `ETCD_ENDPOINTS` names
the etcd cluster.

## Layout

- `src/` — the library, verified with Verus:
  - `model.rs`: the resources, the request bodies and the service's error;
  - `urn.rs`: resource URNs, subdomain FQDNs, parsing subdomain URNs and
    checking URNs given in the configuration file;
  - `keys.rs`: where each resource lives in the etcd key space, with the laws
    that make cascading deletion and listing correct;
  - `store.rs`: how listings and the answers of etcd are read;
  - `records.rs`: what each request creates, refuses or changes, and the
    read-only fields a record is answered with;
  - `creation.rs`: the order in which a creation request is decided (record,
    then parent, then name, then write), with the laws that lookups follow
    the record, a write follows both checks and a refusal is final;
  - `loading.rs`: the course of the startup load, realm after realm, with
    the law that only a realm's refusal or a failed realm write stops it;
  - `config.rs`: what the configuration file makes of each realm: the
    records to write and the resources refused;
  - `text.rs`: character-level string operations;
  - `clock.rs`: the system clock, read without panicking: a clock before
    the Unix epoch or past chrono's range gives no time, and the request is
    answered with a clock error.
- `app/` — the server: HTTP routing (axum), the etcd client calls, the
  serde forms of the resources, reading the configuration file, logging.
- `tests/` — tests of the library.

The web interface's files are served from a `webroot/` directory next to the
server.
