//! The DNS vendor's side: the validation record.

pub mod tencent;

pub use tencent::TencentDNS;
