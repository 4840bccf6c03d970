//! Turns exported TOTP credential records into `otpauth://` URIs and QR-code
//! PNG images, with the validation and naming rules proved.
pub mod text;
pub mod entry;
pub mod descriptor;
pub mod uri;
pub mod qr;
pub mod batch;
pub mod laws;
