//! Model of a single one-time-password credential and its rendering to the
//! standard `otpauth://` provisioning URI and to a scannable QR text block.

pub mod otp_element;
pub mod percent;
pub mod qr;
pub mod text;

pub use otp_element::OTPElement;
pub use otp_element::OTPType;
pub use qr::QrEncodeError;
