# rmpv

Deserialization of MessagePack values (`Value`, `ValueRef`) through serde's data
model, with every decision verified by Verus.

- `src/` is the verified library. `value` and `value_ref` hold the value types and
  their model (`SpecValue`); `deserializer` and `deserializer_ref` decide what a
  value hands a serde visitor; `seq`, `map`, `ext` and `enum_access` walk arrays,
  maps, extension values and enums; `visitor` rebuilds values from events; `error`
  says what went wrong; `laws` proves what the pieces do together, chiefly that
  reading a value back with the value visitor gives the same value.
- `app/` implements serde's `Deserializer` and `Deserialize` traits on top of the
  library, and `from_value`.
- `tests/` runs the library on concrete values.
