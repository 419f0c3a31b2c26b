//! Drives asynchronous certificate selection and private key operations
//! through a synchronous, retry-based handshake callback interface.
pub mod driver;
pub mod error;
pub mod private_key;
pub mod select_cert;

pub use driver::{with_ex_data_future, Drive, Polled};
pub use error::{AsyncPrivateKeyMethodError, AsyncSelectCertError, PrivateKeySignal, SelectCertSignal};
pub use private_key::{complete_private_key_method, finish_private_key_method};
pub use select_cert::finish_select_certificate;
