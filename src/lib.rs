//! Admission policy that gates a Pod's use of host namespaces (IPC, network,
//! PID) and of host ports, against an administrator's allow-list.
pub mod settings;
pub mod pod;
