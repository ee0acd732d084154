//! Controller-neutral realization contracts and the verified byte-level,
//! validation and state-machine logic of the `virtualgamepad` providers.

pub mod bytes;
pub mod realization;
pub mod backend_api;
pub mod fake_backend;
pub mod recorder;
pub mod text;
pub mod transport_trace;
pub mod uhid_kernel;
pub mod uhid;
pub mod uhid_provider;
pub mod uhid_broker;
pub mod uinput_provider;
pub mod uinput_setup;
pub mod dummy_hcd;
pub mod btvirt;
pub mod windows_hid;
pub mod usb_gadget;
pub mod runtime_model;
pub mod session;
pub mod session_options;
pub mod session_queues;
pub mod session_state;
pub mod session_core;
pub mod session_runtime;
pub mod session_archive;
pub mod testkit;
pub mod trace_assertions;
pub mod profiles;
pub mod profile_contract;
pub mod builtin_profiles;
pub mod inputs;
pub mod translators;
pub mod forward_translation;
pub mod translation_context;
pub mod reverse_translation;
