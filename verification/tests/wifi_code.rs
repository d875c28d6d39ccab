use wifi_qr_rs::models::AuthType;
use wifi_qr_rs::models::WifiQrError;
use wifi_qr_rs::wifi_code;

#[test]
fn test_wifi_code_wpa() {
    let wifi_url = wifi_code(
        String::from("my_wifi_network"),
        false,
        AuthType::WPA,
        Some(String::from("my_password")),
    );
    assert_eq!(
        wifi_url.unwrap(),
        "WIFI:S:my_wifi_network;T:WPA;P:my_password;H:false;;".to_string()
    );
}

#[test]
fn test_wifi_code_wep() {
    let wifi_url = wifi_code(
        String::from("my_wifi_network"),
        false,
        AuthType::WEP,
        Some(String::from("my_password")),
    );
    assert_eq!(
        wifi_url.unwrap(),
        "WIFI:S:my_wifi_network;T:WEP;P:my_password;H:false;;".to_string()
    );
}

#[test]
fn test_wifi_code_nopass_hidden() {
    let wifi_url = wifi_code(String::from("my_wifi_network"), true, AuthType::NOPASS, None);
    assert_eq!(
        wifi_url.unwrap(),
        "WIFI:S:my_wifi_network;T:NOPASS;P:nopass;H:true;;".to_string()
    );
}

#[test]
#[should_panic]
fn test_wifi_code_nopassword_but_password_provided() {
    let _fail_result = wifi_code(
        String::from("my_wifi_network"),
        false,
        AuthType::NOPASS,
        Some(String::from("my_password")),
    )
    .unwrap();
}

#[test]
#[should_panic]
fn test_wifi_code_need_password_but_none_given() {
    let _fail_result =
        wifi_code(String::from("my_wifi_network"), false, AuthType::WPA, None).unwrap();
}

#[test]
fn test_wifi_code_nopass_with_password_is_validation_error() {
    let r = wifi_code(
        String::from("my_wifi_network"),
        false,
        AuthType::NOPASS,
        Some(String::from("my_password")),
    );
    match r {
        Err(WifiQrError::Validation(m)) => {
            assert_eq!(m, "password must not be provided for NOPASS");
        }
        _ => panic!("expected a validation error"),
    }
}

#[test]
fn test_wifi_code_wep_without_password_is_validation_error() {
    let r = wifi_code(String::from("my_wifi_network"), false, AuthType::WEP, None);
    match r {
        Err(WifiQrError::Validation(m)) => {
            assert_eq!(m, "password required for WPA/WEP");
        }
        _ => panic!("expected a validation error"),
    }
}

#[test]
fn test_wifi_code_idempotent() {
    let first = wifi_code(
        String::from("my_wifi_network"),
        true,
        AuthType::WPA,
        Some(String::from("my_password")),
    );
    let second = wifi_code(
        String::from("my_wifi_network"),
        true,
        AuthType::WPA,
        Some(String::from("my_password")),
    );
    assert_eq!(first.unwrap(), second.unwrap());
}

#[test]
fn test_wifi_code_hidden_flag_lowercase() {
    let wifi_url = wifi_code(
        String::from("net"),
        true,
        AuthType::WEP,
        Some(String::from("pw")),
    );
    assert_eq!(wifi_url.unwrap(), "WIFI:S:net;T:WEP;P:pw;H:true;;".to_string());
}

#[test]
fn test_wifi_code_empty_ssid_and_password() {
    let wifi_url = wifi_code(String::from(""), false, AuthType::WPA, Some(String::from("")));
    assert_eq!(wifi_url.unwrap(), "WIFI:S:;T:WPA;P:;H:false;;".to_string());
}

#[test]
fn test_error_message_io_variant() {
    let e = WifiQrError::Io(String::from("cannot write file"));
    assert_eq!(e.message(), "cannot write file");
}
