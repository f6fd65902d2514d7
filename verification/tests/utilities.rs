use voxel_core::{
    connect_server, get_sound_duration, validate_color_hex, validate_username, AudioFormat,
};

#[test]
fn test_get_sound_duration() {
    assert_eq!(get_sound_duration("test"), 400);
    assert_eq!(get_sound_duration("hello"), 500);
    assert_eq!(get_sound_duration(""), 0);
}

#[test]
fn test_audio_format_display() {
    assert_eq!(AudioFormat::MP3.name(), "MP3");
    assert_eq!(AudioFormat::WAV.name(), "WAV");
    assert_eq!(AudioFormat::OGG.name(), "OGG");
}

#[test]
fn test_connect_server() {
    assert_eq!(connect_server(), "Connection successful");
}

#[test]
fn test_validate_username() {
    assert!(validate_username("valid_username"));
    assert!(!validate_username("ab"));
    assert!(!validate_username("invalid username"));
}

#[test]
fn test_validate_color_hex() {
    assert!(validate_color_hex("#FFFFFF"));
    assert!(!validate_color_hex("#ZZZZZZ"));
}

#[test]
fn username_length_bounds() {
    assert!(validate_username("abc"));
    assert!(!validate_username("abcdefghijklmnopqrstu"));
    assert!(validate_username("abcdefghijklmnopqrst"));
    assert!(!validate_username(""));
}

#[test]
fn color_hex_shapes() {
    assert!(validate_color_hex("#00ff9A"));
    assert!(!validate_color_hex("00ff9A0"));
    assert!(!validate_color_hex("#00ff9"));
    assert!(!validate_color_hex("#00ff9AB"));
    assert!(!validate_color_hex(""));
}
