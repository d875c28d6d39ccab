pub mod models;
pub mod render;

use vstd::prelude::*;

use crate::models::AuthType;
use crate::models::WifiQrError;

verus! {

/// Whether the authentication scheme calls for a password.
pub open spec fn requires_password(t: AuthType) -> bool {
    t is WPA || t is WEP
}

/// The canonical uppercase label of an authentication scheme, as it appears
/// in the `T:` field of the encoded text.
pub open spec fn scheme_label(t: AuthType) -> Seq<char> {
    match t {
        AuthType::WPA => "WPA"@,
        AuthType::WEP => "WEP"@,
        AuthType::NOPASS => "NOPASS"@,
    }
}

/// The label of the hidden flag, as it appears in the `H:` field of the
/// encoded text.
pub open spec fn hidden_label(hidden: bool) -> Seq<char> {
    if hidden {
        "true"@
    } else {
        "false"@
    }
}

/// A credential is well formed exactly when the password is present if and
/// only if the scheme calls for one.
pub open spec fn credential_ok(t: AuthType, password: Option<Seq<char>>) -> bool {
    requires_password(t) == (password is Some)
}

/// The value of the `P:` field for a well-formed credential: the password
/// itself for WPA and WEP, the literal text `nopass` for an open network.
pub open spec fn password_field(t: AuthType, password: Option<Seq<char>>) -> Seq<char>
    recommends
        credential_ok(t, password),
{
    match password {
        Some(p) => p,
        None => "nopass"@,
    }
}

/// The encoded text for a credential whose fields are given:
/// `WIFI:S:<ssid>;T:<scheme>;P:<password-or-nopass>;H:<true-or-false>;;`.
/// No character of the SSID or the password is escaped.
pub open spec fn wifi_text(ssid: Seq<char>, hidden: bool, t: AuthType, pwd_field: Seq<char>) -> Seq<
    char,
> {
    "WIFI:S:"@ + ssid + ";T:"@ + scheme_label(t) + ";P:"@ + pwd_field + ";H:"@ + hidden_label(
        hidden,
    ) + ";;"@
}

/// The message of the validation error for a scheme that calls for a password
/// when none was given.
pub open spec fn missing_password_message() -> Seq<char> {
    "password required for WPA/WEP"@
}

/// The message of the validation error for an open network when a password
/// was given anyway.
pub open spec fn forbidden_password_message() -> Seq<char> {
    "password must not be provided for NOPASS"@
}

/// What encoding a credential yields: the full text on a well-formed
/// credential, and the exact validation message otherwise.
pub open spec fn encode_result(
    ssid: Seq<char>,
    hidden: bool,
    t: AuthType,
    password: Option<Seq<char>>,
) -> Result<Seq<char>, Seq<char>> {
    if credential_ok(t, password) {
        Ok(wifi_text(ssid, hidden, t, password_field(t, password)))
    } else if requires_password(t) {
        Err(missing_password_message())
    } else {
        Err(forbidden_password_message())
    }
}

/// The canonical uppercase label of an authentication scheme.
pub fn scheme_name(t: AuthType) -> (r: &'static str)
    ensures
        r@ == scheme_label(t),
{
    match t {
        AuthType::WPA => "WPA",
        AuthType::WEP => "WEP",
        AuthType::NOPASS => "NOPASS",
    }
}

/// Generate the WiFi code text for the given parameters.
///
/// The result is `Ok` exactly when the password is present if and only if the
/// scheme calls for one; the text is then
/// `WIFI:S:<ssid>;T:<scheme>;P:<password-or-nopass>;H:<hidden>;;`.
/// Otherwise the result is a validation error with a fixed message.
pub fn wifi_code(
    ssid: String,
    is_hidden: bool,
    authentication_type: AuthType,
    password: Option<String>,
) -> (r: Result<String, WifiQrError>)
    ensures
        r is Ok <==> credential_ok(authentication_type, password.deep_view()),
        ({
            let er = encode_result(ssid@, is_hidden, authentication_type, password.deep_view());
            match r {
                Ok(s) => er == Ok::<Seq<char>, Seq<char>>(s@),
                Err(e) => e matches WifiQrError::Validation(m) && er == Err::<
                    Seq<char>,
                    Seq<char>,
                >(m@),
            }
        }),
{
    let password_string: String = match authentication_type {
        AuthType::WPA | AuthType::WEP => match password {
            Some(p) => p,
            None => {
                return Err(
                    WifiQrError::Validation("password required for WPA/WEP".to_owned()),
                );
            },
        },
        AuthType::NOPASS => match password {
            Some(_p) => {
                return Err(
                    WifiQrError::Validation("password must not be provided for NOPASS".to_owned()),
                );
            },
            None => "nopass".to_owned(),
        },
    };
    let mut out = String::new();
    out.append("WIFI:S:");
    out.append(ssid.as_str());
    out.append(";T:");
    out.append(scheme_name(authentication_type));
    out.append(";P:");
    out.append(password_string.as_str());
    out.append(";H:");
    out.append(if is_hidden { "true" } else { "false" });
    out.append(";;");
    proof {
        assert(out@ =~= wifi_text(
            ssid@,
            is_hidden,
            authentication_type,
            password_field(authentication_type, password.deep_view()),
        ));
    }
    Ok(out)
}

/// Generate the WiFi code text for the given parameters and render it as a
/// QR code image. The resulting image can be scanned to join the network.
///
/// The result is `Ok` exactly when the credential is well formed and the
/// barcode encoder accepts the encoded text; the raster is then the one the
/// renderer produces for that text, well formed and never empty. A validation
/// error carries the exact message that encoding yields, and an encoding
/// error can come only from a well-formed credential whose text the barcode
/// encoder rejects.
pub fn qr(
    ssid: String,
    is_hidden: bool,
    authentication_type: AuthType,
    password: Option<String>,
) -> (r: Result<crate::render::QrImage, WifiQrError>)
    ensures
        ({
            let er = encode_result(ssid@, is_hidden, authentication_type, password.deep_view());
            match r {
                Ok(img) => er matches Ok(t) && crate::render::qr_encodable(t) && img.width
                    == crate::render::qr_raster_width_of(t) && img.height
                    == crate::render::qr_raster_height_of(t) && img.pixels@
                    == crate::render::qr_raster_pixels_of(t) && img.well_formed() && img.width > 0
                    && img.height > 0,
                Err(e) => match e {
                    WifiQrError::Validation(m) => er == Err::<Seq<char>, Seq<char>>(m@),
                    WifiQrError::Encoding(_) => er matches Ok(t) && !crate::render::qr_encodable(
                        t,
                    ),
                    WifiQrError::Io(_) => false,
                },
            }
        }),
{
    let text = wifi_code(ssid, is_hidden, authentication_type, password)?;
    crate::render::render_wifi_qr_image(text)
}

/// For WPA or WEP with a password present, encoding always succeeds, and the
/// text is exactly `WIFI:S:<ssid>;T:<scheme>;P:<password>;H:<hidden>;;`.
pub proof fn lemma_encode_with_password(ssid: Seq<char>, hidden: bool, t: AuthType, p: Seq<char>)
    requires
        requires_password(t),
    ensures
        encode_result(ssid, hidden, t, Some(p)) == Ok::<Seq<char>, Seq<char>>(
            wifi_text(ssid, hidden, t, p),
        ),
{
}

/// For an open network with the password absent, encoding always succeeds,
/// and the text is exactly `WIFI:S:<ssid>;T:NOPASS;P:nopass;H:<hidden>;;`.
pub proof fn lemma_encode_nopass(ssid: Seq<char>, hidden: bool)
    ensures
        encode_result(ssid, hidden, AuthType::NOPASS, None) == Ok::<Seq<char>, Seq<char>>(
            wifi_text(ssid, hidden, AuthType::NOPASS, "nopass"@),
        ),
{
}

/// For WPA or WEP with the password absent, encoding always fails with the
/// validation message, and no text is produced.
pub proof fn lemma_encode_missing_password(ssid: Seq<char>, hidden: bool, t: AuthType)
    requires
        requires_password(t),
    ensures
        encode_result(ssid, hidden, t, None) == Err::<Seq<char>, Seq<char>>(
            missing_password_message(),
        ),
{
}

/// For an open network with a password present, encoding always fails with
/// the validation message, and no text is produced.
pub proof fn lemma_encode_forbidden_password(ssid: Seq<char>, hidden: bool, p: Seq<char>)
    ensures
        encode_result(ssid, hidden, AuthType::NOPASS, Some(p)) == Err::<Seq<char>, Seq<char>>(
            forbidden_password_message(),
        ),
{
}

/// Encoding is a pure function of the credential: any two results of encoding
/// the same credential are identical.
pub proof fn lemma_encode_deterministic(
    ssid: Seq<char>,
    hidden: bool,
    t: AuthType,
    password: Option<Seq<char>>,
    r1: Result<Seq<char>, Seq<char>>,
    r2: Result<Seq<char>, Seq<char>>,
)
    requires
        r1 == encode_result(ssid, hidden, t, password),
        r2 == encode_result(ssid, hidden, t, password),
    ensures
        r1 == r2,
{
}

} // verus!
