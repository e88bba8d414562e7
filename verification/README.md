# ddnsd

Sends ip address updates to DNS services (dyndns2 and cloudflare).

`ddnsd <path_to_json_config>` reads a JSON configuration, asks a randomly
chosen ip service (never the one asked last time, where there is another)
for the public address, updates every configured domain whose recorded
address differs, and writes the results next to the configuration.

## Layout

- `src/` is a library verified with Verus: choosing the ip service, reading
  its answer, deciding which domains need an update, building the update
  requests (dyndns2 URL and basic authentication, cloudflare's JSON body),
  judging the services' answers and recording the results.
  - `toolkit/`: requests and responses as plain values, results, the map of
    results by host name, configuration (`ENV:` secrets, the results path
    taken relative to the configuration file).
  - `ip_services/`: the choice of ip service and the address it reports.
  - `domain_services/`: planning the updates of a run and recording their
    outcomes; `dyndns2.rs` and `cloudflare.rs` hold the two protocols.
  - `address_tracking.rs`: results that keep the previous address beside the
    current one, with the retry rules of each service.
  - `text.rs`: decimal numerals, JSON string literals, string comparison.
- `app/main.rs` is the program: configuration and result files, TLS
  connections and HTTP exchanges, reading `ENV:` variables, and the ip
  address parser.
- `tests/` exercises the library on concrete values.
