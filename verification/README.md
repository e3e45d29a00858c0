# opcua_nodes

The node management services of an OPC UA server (AddNodes, AddReferences,
DeleteNodes, DeleteReferences) over an in-memory address space, and the binary
framing of the open secure channel response, written in Verus with their contracts
proved.

- `src/` — the verified library: node ids (`node_id`), the address space model and
  relative-path lookup (`address_space`, `browse_path`, `reference_type`), the rules
  for building nodes from attribute structures (`attributes`, `standard_ids`), the
  bounds on how deep the protocol's recursive encodings nest before they are decoded
  (`nesting`), the
  services (`node_management`), the response framing (`secure_channel`) and the
  laws that relate them (`laws`). Calls into `opcua-types` stand behind small
  trusted wrappers whose contracts are stated beside them.
- `tests/` — tests of the library with concrete values.
- `app/` — the protocol side: converts `opcua-types` requests into the library's
  types, builds time-stamped responses, and gives the response type the
  `BinaryEncoder` trait.
