# up-transport-vsomeip, verified core

The bookkeeping and the decisions of a uProtocol uTransport over SOME/IP (vsomeip),
written in Verus and proved against their contracts.

- `src/` is the verified library:
  - `ids`, `uri`, `status`: request ids, URIs with their wildcards, status codes;
  - `determinations`, `determine_message_type`: which kind of registration or message a
    pair of source and sink filters stands for;
  - `rpc_correlation`, `message_handler_registry`, `listener_config_map`, `id_pool`,
    `listener_registry`, `application_registry`,
    `application_state_availability_handler_registry`, `vsomeip_offered_requested`: the
    registries of the transport;
  - `attributes`, `message_conversions`, `umessage`: the checks before sending, and the
    mapping of uProtocol messages onto SOME/IP messages and back, with `up_rust`'s attribute
    validator and message builder;
  - `transport_engine`, `transport`, `transport_plan`: the vsomeip calls that register and
    unregister listeners, the engine's event loop, the transport's own decisions, and the
    order of its steps when it sends a message or registers or unregisters a listener;
  - `vsomeip_config`: the parts of a vsomeip configuration that the transport reads.
- `tests/` runs the library on concrete values.
- `app/` holds what the library leaves to its caller: conversions between `up_rust` values
  and the library's plain values, reading vsomeip configuration files with `serde_json`,
  and the `tokio` runtime that runs listener callbacks.

Talking to the vsomeip C++ library itself is not part of this crate.
