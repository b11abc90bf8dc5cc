# certbuilder

Builders for PKCS#10 certificate signing requests, X.509 to-be-signed certificates, X.509
certificates and the distinguished names they carry, verified with Verus.

- `src/` is the verified library. `Builder` (in `builder_common.rs`) is shared by
  `Certificate::builder()` / `TbsCertificate` (`cert_builder.rs`) and `Csr::builder()`
  (`csr_builder.rs`); `NameBuilder` (`name_builder.rs`) builds subjects and issuers. The
  cryptographic backend plugs in through the traits of `crypto_provider.rs`, and the key
  material a builder holds is described in `key_material.rs`. DER encoding is done by the `pkix`
  crate and time arithmetic by `chrono`, behind the trusted functions of `der.rs` and `time.rs`;
  the contracts speak of the values that were encoded, through named encodings.
- `app/` holds what Verus does not check: the mbedtls backend, serde forms of the built values,
  error types with `Display`, and conversions from `chrono` times.
- `tests/` exercises the library with a test backend.
