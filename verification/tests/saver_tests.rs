use offscreen_renderer::error::TextureSaverError;
use offscreen_renderer::size::Size;
use offscreen_renderer::texture_saver::TextureSaver;

#[test]
fn saving_a_valid_pixel_buffer_writes_the_file() {
    let size = Size::new(2, 2);
    let data = vec![
        255u8, 0, 0, 255, 0, 255, 0, 255, 0, 0, 255, 255, 255, 255, 255, 255,
    ];
    let result = TextureSaver::save_buffer_data_to_file("/tmp/saver_ok_output.png", &size, data);
    if let Err(error) = &result {
        panic!("Texture was not saved on disk: {:?}", error);
    }
    assert!(std::path::Path::new("/tmp/saver_ok_output.png").exists());
}

#[test]
fn saving_to_a_missing_directory_reports_a_save_error() {
    let size = Size::new(2, 2);
    let data = vec![0u8; 16];
    let result = TextureSaver::save_buffer_data_to_file("badfolder/output.png", &size, data);
    assert!(matches!(result, Err(TextureSaverError::ImageSaveError(_))));
    assert!(!std::path::Path::new("badfolder/output.png").exists());
}

#[test]
fn a_buffer_one_byte_short_is_rejected_before_writing() {
    let size = Size::new(2, 2);
    let data = vec![0u8; 15];
    let result =
        TextureSaver::save_buffer_data_to_file("saver_short_output.png", &size, data);
    assert!(matches!(
        result,
        Err(TextureSaverError::ImageBufferCreationError)
    ));
    assert!(!std::path::Path::new("saver_short_output.png").exists());
}

#[test]
fn a_buffer_one_byte_long_is_rejected_before_writing() {
    let size = Size::new(2, 2);
    let data = vec![0u8; 17];
    let result = TextureSaver::save_buffer_data_to_file("saver_long_output.png", &size, data);
    assert!(matches!(
        result,
        Err(TextureSaverError::ImageBufferCreationError)
    ));
    assert!(!std::path::Path::new("saver_long_output.png").exists());
}
