# cubecl_metal4

A Metal 4 backend for CubeCL, with its logic verified by Verus.

`src/` is the verified library:

- `stride` — row-major strides and stride-pattern classification.
- `ir`, `kernel` — the kernel IR types the generators read.
- `msl`, `compiler`, `msl4` — the two MSL source generators; each `compile`
  is specified by `module_matches` over the exact text it emits.
- `kernels` — the MPP matrix-multiply and convolution templates.
- `storage` — the registry of GPU buffers behind storage ids (a
  `hashbrown::HashMap` behind trusted wrappers).
- `server` — allocation layouts, copy sizes, pipeline selection, tensor
  views, metadata, binding order, dispatch geometry and fence scheduling.
- `runtime`, `device`, `softmax` — runtime properties, the device, and
  softmax launch planning.
- `text` — decimal rendering and substring search used by the generators.

`app/` is the unverified host side: Metal calls through `objc2`, cubecl's
`Compiler` and `Device` traits, and the `#[cube]` softmax kernel. The server,
storage and runtime are offered there as plain types with the same operations
(the cubecl storage and server traits live in `cubecl-runtime`, which this
crate does not depend on). It carries out what the library plans.
