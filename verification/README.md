# tpm2_client

A client for TPM 2.0 commands, verified with Verus: the TPM wire format
(marshalling and unmarshalling of the structures the client uses), the
cryptography of HMAC sessions (KDFa session keys, command and response
parameter hashes, session HMACs), the authorization area of a command, and
the assembly of commands and reading of responses.

- `src/` is the verified library.
  - `marshal`, `tpm2b`, `types`, `structures`, `object`: the wire format, with
    the laws that reading back an encoding gives the value and that what is
    read is exactly the encoding of the value.
  - `algo`: hash and HMAC algorithms; SHA-256 and HMAC-SHA-256 are computed
    by the `sha2` and `hmac` crates.
  - `crypto`: session key, cpHash, rpHash and session HMAC.
  - `session`: HMAC sessions, which authorize commands and check the TPM's
    acknowledgment of each response.
  - `auth_area`: the authorization area: no session, one session, or an array
    of up to three.
  - `tpm`: command and response headers, assembling a command, reading a
    response, and running a command on a TPM.
- `app/` holds `FileIoTpm`, a TPM reached through a device file.
- `tests/` runs the library against reference computations and mock TPMs.
