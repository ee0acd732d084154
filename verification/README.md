# virtualgamepad

Virtual game controllers for Linux and Windows hosts: controller profiles,
the translation of profile input frames into backend frames and of backend
reverse events into controller output commands, the session runtime that
ties them together, and the providers that realize a controller through
uinput, UHID, a USB gadget, dummy_hcd or btvirt.

## Layout

- `src/` is the library, written in Verus. Every function carries a
  `requires`/`ensures` contract that Verus proves: byte layouts of the
  kernel events, frame validation, report packing, the session queues and
  their backpressure policies, the provider and session state machines, and
  the steps that decide what a session does with what a device or backend
  answered.
- `tests/` runs the library on concrete scenarios.
- `app/` is the thin host layer: device nodes, ioctls, sockets and the
  broker process. It hands the library plain values and performs the I/O
  the library decides on.

Host I/O is reached through traits (`UhidIo`, `UinputIo`, `UsbEndpointIo`,
their factories, `BackendSession`, `BackendFactory`). Where the outcome of a
call depends on the host, the library states what holds for every outcome
and exposes a verified step that takes the host's answer as an argument
(`admit_open`, `from_opened`, `usb_preflight`, `plan_uhid_drain`,
`UhidSession::accept_event`, `plan_usb_drain`, `UinputSession::accept_read`,
`broker_step`). The test harness's scenario runner decides its next action
with `scenario_next`; the session registry and archive keep active and
closed sessions.
