use qqbot_core::color::{calc_dominant_color, dominant_color_of_rgb};
use qqbot_core::errors::BotError;

#[test]
fn empty_buffer_is_black() {
    assert_eq!(dominant_color_of_rgb(&[]), vec![0, 0, 0]);
}

#[test]
fn saturated_bucket_wins() {
    // two pure-red pixels (key 15*2) against one pure-green (key 15*1)
    let rgb = [255u8, 0, 0, 255, 0, 0, 0, 255, 0];
    assert_eq!(dominant_color_of_rgb(&rgb), vec![15, 0, 0]);
}

#[test]
fn population_breaks_low_saturation() {
    // a half-saturated color seen three times beats a full-saturated one seen once
    let rgb = [255u8, 128, 128, 255, 128, 128, 255, 128, 128, 0, 0, 255];
    // quant(255) = 15, quant(128) = 7: saturation 8, population 3 -> key 24
    // quant blue bucket: saturation 15, population 1 -> key 15
    assert_eq!(dominant_color_of_rgb(&rgb), vec![15, 7, 7]);
}

#[test]
fn decodes_png_and_picks_dominant() {
    let mut img = image::RgbImage::new(2, 1);
    img.put_pixel(0, 0, image::Rgb([255, 0, 0]));
    img.put_pixel(1, 0, image::Rgb([30, 30, 30]));
    let mut bytes: Vec<u8> = Vec::new();
    img.write_to(&mut std::io::Cursor::new(&mut bytes), image::ImageFormat::Png)
        .unwrap();
    let c = calc_dominant_color(&bytes).unwrap();
    assert_eq!(c, vec![15, 0, 0]);
}

#[test]
fn garbage_bytes_are_undecodable() {
    assert_eq!(
        calc_dominant_color(&[1, 2, 3, 4]).unwrap_err(),
        BotError::Undecodable
    );
}
