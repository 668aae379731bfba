# rusteron

The decision logic of the Rusteron Aeron toolkit, written in Verus and proved
against its contracts.

`src/` is the verified library:

- `errors`, `status`, `counters`, `uri`: Aeron error codes and kinds,
  publication status and its transition tracker, system counter ids, channel
  URI names.
- `endpoint`: validation of UDP endpoints (`host:port`, `[ipv6]:port`).
- `publication`: offer and claim results, the one-shot claim lifecycle,
  fragment header values.
- `resource`: the close guard of managed C resources, handles and handlers,
  and the search for a free UDP port.
- `parse`, `bindings`: reading a bindgen bindings file (through `syn`) into
  wrappers, free functions and callback types, and the rules those follow.
- `docs`: the documentation of generated methods, from the C documentation.
- `generator`, `parser`: argument classification, method lookup and naming
  rules of the binding generator, the Rust type each C type maps to, the
  conversions between the two, and the text of each method binding.
- `handlers`, `constructor`, `fields`, `once`, `async_code`, `class_code`:
  the code the generator emits, as text: callback traits and trampolines,
  constructors, field getters, one-shot closure variants, the impls of
  asynchronous operations, and the whole code of a wrapper class.
- `inventory`, `service`: the DPDK device plugin's pair inventory validation,
  device advertisement, allocation and watch.
- `dpdk_config`, `dpdk_env`, `dpdk_native`: the DPDK transport configuration,
  its environment contract, driver-context checks and native buffer filling.
- `build_config`: link directives, compiler flags and artifact locations of
  the build.
- `text`, `chars`: string helpers the rest is built on.

`app/` holds what touches the host: reading the inventory and bindings files,
sysfs and UDP probes, the process environment and printing build directives.
