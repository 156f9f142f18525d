# nv-redfish (verified core)

Redfish resource status and the NVIDIA `Processor` OEM extension, written in
Verus.

- `src/resource.rs`: the `Status` object of a resource as it is read
  (absent and `null` members kept apart), the `Status` view in which both
  read as "not provided", and the `ResourceProvidesStatus` trait.
- `src/oem.rs`: the `Oem` object of a resource, the lookup of a vendor's
  member in it, and the reading of an `@odata.type` annotation.
- `src/processor.rs`: the NVIDIA processor extension: which schema the
  NVIDIA object is read as, and the read as a whole from the decoding of
  that object (`from_decoding`), with its laws.
- `app/lib.rs`: serde copies of the library's types, the conversion of JSON
  into the library's view of an `Oem` object, and the reading of the
  NVIDIA object into the schema the library chose.
