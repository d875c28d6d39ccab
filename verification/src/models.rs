use vstd::prelude::*;

verus! {

/// The authentication scheme of a WiFi network.
#[derive(Clone, Copy, Debug, PartialEq, Eq, Structural)]
pub enum AuthType {
    /// Wi-Fi Protected Access (covers WPA and WPA2 pre-shared-key networks)
    WPA,
    /// Wired Equivalent Privacy
    WEP,
    /// Open network: no password is set
    NOPASS,
}

/// The ways generating a WiFi QR code can fail. Each variant carries a
/// human-readable message.
#[derive(Debug)]
pub enum WifiQrError {
    /// The password and the authentication scheme do not fit together.
    Validation(String),
    /// The barcode encoder rejected the text (for example, it is too long).
    Encoding(String),
    /// The output image file could not be written.
    Io(String),
}

impl WifiQrError {
    /// The message carried by the error, as a sequence of characters.
    pub open spec fn message_view(&self) -> Seq<char> {
        match self {
            WifiQrError::Validation(m) => m@,
            WifiQrError::Encoding(m) => m@,
            WifiQrError::Io(m) => m@,
        }
    }

    /// The message carried by the error.
    pub fn message(&self) -> (m: &str)
        ensures
            m@ == self.message_view(),
    {
        match self {
            WifiQrError::Validation(m) => m.as_str(),
            WifiQrError::Encoding(m) => m.as_str(),
            WifiQrError::Io(m) => m.as_str(),
        }
    }
}

} // verus!
