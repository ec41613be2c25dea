# libtock drivers, verified

A Verus library with two Tock userspace drivers:

- `kv_store`: the key-value store driver. Each operation returns the system
  call it needs (`syscalls::CommandCall`, `AllowCall`, `SubscribeCall`); the
  caller performs it and hands the kernel's return code back to
  `complete_command`, `complete_allow` or `complete_subscribe`.
- `host`: a host port for a Cerberus root of trust over MCTP on I2C. A request
  is built by libmctp (`mctp`) and written without its address byte; a
  response is read as a sequence of `ResponseStep`s.
- `hardware`: the demo platform (identity, reset counters, RSA stand-ins).

`app/` holds the system-call side: traits for the kernel and the I2C master,
and the loops that perform the steps.
