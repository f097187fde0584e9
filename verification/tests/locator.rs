use download_core::locator::{
    bundled_name_for, bundled_transcoder_name, development_dir, locate, transcoder_file_name,
};

#[test]
fn installed_location_wins() {
    assert_eq!(
        locate(Some("/opt/app/ffmpeg".to_string()), Some("/src/bin/ffmpeg".to_string())),
        Some("/opt/app/ffmpeg".to_string())
    );
    assert_eq!(
        locate(Some("/opt/app/ffmpeg".to_string()), None),
        Some("/opt/app/ffmpeg".to_string())
    );
}

#[test]
fn development_location_is_the_fallback() {
    assert_eq!(
        locate(None, Some("/src/bin/ffmpeg".to_string())),
        Some("/src/bin/ffmpeg".to_string())
    );
}

#[test]
fn nothing_found_is_no_error() {
    assert_eq!(locate(None, None), None);
}

#[test]
fn file_name_holds_the_platform() {
    assert_eq!(
        transcoder_file_name("x86_64-pc-windows-msvc"),
        "ffmpeg-x86_64-pc-windows-msvc.exe"
    );
    assert_eq!(
        transcoder_file_name("aarch64-apple-darwin"),
        "ffmpeg-aarch64-apple-darwin.exe"
    );
    assert_eq!(transcoder_file_name(""), "ffmpeg-.exe");
}

#[test]
fn missing_platform_gives_an_empty_qualifier() {
    assert_eq!(bundled_name_for(None), "ffmpeg-.exe");
    assert_eq!(
        bundled_name_for(Some("x86_64-unknown-linux-gnu".to_string())),
        "ffmpeg-x86_64-unknown-linux-gnu.exe"
    );
}

#[test]
fn bundled_name_is_built_from_this_platform() {
    let triple = tauri_utils::platform::target_triple().unwrap_or_default();
    assert_eq!(bundled_transcoder_name(), transcoder_file_name(&triple));
    assert_eq!(bundled_transcoder_name(), format!("ffmpeg-{}.exe", triple));
}

#[test]
fn development_directory() {
    assert_eq!(development_dir(), "src-tauri/bin");
}
