use pprefox_rs::install::{batch_contents, Error, Host};

#[test]
fn launcher_script_text() {
    assert_eq!(batch_contents("C:\\bin\\p.exe"), "@echo off\r\nC:\\bin\\p.exe -s");
}

#[test]
fn host_record_fields() {
    let h = Host::for_script("/x/nmhhost.bat".to_string());
    assert_eq!(h.name, "pprefox_rs");
    assert_eq!(h.description, "pprefox_rs");
    assert_eq!(h.path, "/x/nmhhost.bat");
    assert_eq!(h._type, "stdio");
    assert_eq!(h.allowed_extensions, vec!["pprefox@duckfromdiscord.github.io".to_string()]);
}

#[test]
fn error_message() {
    assert_eq!(Error::FirefoxNotFound.message(), "pprefox-rs error");
    assert_eq!(Error::ErrorWritingConfigData.message(), "pprefox-rs error");
}
