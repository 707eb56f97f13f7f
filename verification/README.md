# nvml_wrapper

A safe and ergonomic interface to the [NVIDIA Management Library](https://developer.nvidia.com/nvidia-management-library-nvml)
(NVML), written in Verus.

- `src/` is the verified library. `nvml::NVML` is a session with an initialized NVML library: its
  methods decide which calls are made on the library and with which arguments, and what is made
  of each reply. The calls are handed to the methods as functions. `bindings` has NVML's C
  interface as plain values, `balance` what sessions do to NVML's count of its initializations,
  `error` the errors and the return codes, `c_string` the texts that go
  in and out, and the `*_wrappers` modules the enumerations and structures.
- `app/` makes the calls: it opens the library, looks its entry points up, and calls them.
- `tests/` plays the driver by functions of its own.
