//! The CDN vendor's side: binding a certificate to a domain.

pub mod tencent;

pub use tencent::TencentCDN;
