//! User-space implementation of the binder IPC wire protocol: the parcel
//! marshalling buffer, the flat kernel object record, the command and return
//! code tables, the transaction envelope and the transport's decision logic.
pub mod error;
pub mod flat_object;
pub mod laws;
pub mod parcel;
pub mod parcelable;
pub mod protocol;
pub mod stability;
pub mod text;
pub mod transaction_data;
pub mod transport;
pub mod wire;
