//! Builders for X.509 certificates, to-be-signed certificates and PKCS#10 certificate signing
//! requests, together with the distinguished names they carry.

pub mod builder_common;
pub mod cert_builder;
pub mod crypto_provider;
pub mod csr_builder;
pub mod error;
pub mod key_material;
pub mod mbedtls_adapter;
pub mod oids;
pub mod types;
pub mod time;
pub mod der;
pub mod name_builder;
pub mod util;

pub use error::{Error, ValidationErrorType};

pub use builder_common::Builder;
pub use cert_builder::{Certificate, TbsCertificate};
pub use csr_builder::Csr;
pub use name_builder::NameBuilder;
