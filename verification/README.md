# simplefin_data

Data structures of the SimpleFIN v2 protocol (account sets, accounts,
transactions, connections and errors), written in Verus.

- `src/` is the verified library. Dates are held as whole seconds since the
  Unix epoch (`date::Timestamp`), always inside the range of chrono's
  `DateTime<Utc>`; amounts are held as the decimal text SimpleFIN sends; URLs are
  held in the url crate's serialization of them.
  The conversions of dates and error codes to and from their wire form are
  proved, including that each reads back what it writes.
- `app/` holds the serde glue: copies of the types with serde derives, the
  field (de)serializers, and the `f32` handling of amounts.
- `tests/` runs the library on concrete values.
