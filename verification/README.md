# payjoin

Payjoin URIs (BIP21 with the `pj`, `pjos` and `ohttp` parameters) and the errors a
payjoin sender reports, written in Verus.

- `src/uri/`: reading the payjoin parameters of a URI one at a time
  (`DeserializationState`), deciding what they say of payjoin (`finalize`),
  writing them back (`serialize_params`), endpoints and OHTTP key configurations.
- `src/uri_ext.rs`: the fields of a BIP21 URI, and telling payjoin-capable URIs
  apart (`check_pj_supported`).
- `src/send/error.rs`: receiver errors read from JSON responses, and the text of
  every error.
- `src/send/consensus.rs`, `src/send/causes.rs`: the values errors carry (lock
  times, sequence numbers; URL, base64 and secp256k1 errors), with their texts.
- `src/json.rs`: JSON values as the error responses are read.
- `src/text.rs`: comparing strings and writing numbers in decimal.
- `app/`: the `bip21` trait implementations that let `bip21` parse and display URIs
  with the library's payjoin parameters, and the network checks of addresses.
