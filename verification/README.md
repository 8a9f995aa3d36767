# zeebe

A client for the Zeebe workflow engine, verified with Verus.

* `src/` is the verified library: the requests of every gateway command and
  the rules that reject incomplete ones (`job`, `process`, `resources`,
  `util`, `topology`, `workflow`), the gateway protocol messages as plain data
  (`proto`), the choice of gateway address and OAuth settings from the
  environment and the construction of the gateway endpoints (`client`,
  `oauth`), the OAuth token cache and its refresh and header decisions
  (`oauth`), and the job worker: its settings, the poller state machine that
  decides when to fetch jobs and how many (`worker::poller`, with its flow
  control laws), and how auto handlers report a job (`worker::auto_handler`).
  The types of `tonic`, `tokio` and `serde_json` that the library carries are
  declared in `interop`; each call into them goes through a small trusted
  wrapper next to its caller.
* `app/` is the runtime around it: the protobuf encoding and gRPC calls, the
  balanced channel over the endpoints, the asynchronous `send` of each
  builder, the background OAuth refresh with `oauth2`, reading the
  environment and files, and the job worker's polling and dispatch tasks.
* `tests/` exercises the library on concrete values.
