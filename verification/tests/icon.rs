use tray_icon::error::BadIcon;
use tray_icon::icon::{rgba_to_bgra_and_mask, Icon, Pixel, PlatformIcon};

fn solid_rgba(r: u8, g: u8, b: u8, a: u8, pixels: usize) -> Vec<u8> {
    let mut buf = Vec::new();
    for _ in 0..pixels {
        buf.push(r);
        buf.push(g);
        buf.push(b);
        buf.push(a);
    }
    buf
}

#[test]
fn from_rgba_accepts_exact_buffer() {
    let buf = solid_rgba(255, 0, 0, 255, 16 * 16);
    let icon = Icon::from_rgba(buf.clone(), 16, 16).unwrap();
    assert_eq!(icon.get_size(), (16, 16));
    assert_eq!(icon.rgba(), &buf);
}

#[test]
fn from_rgba_rejects_wrong_lengths() {
    // one byte short
    let buf = solid_rgba(1, 2, 3, 4, 4);
    let mut short = buf.clone();
    short.pop();
    match Icon::from_rgba(short, 2, 2) {
        Err(BadIcon::InvalidBuffer { width, height, len }) => {
            assert_eq!((width, height, len), (2, 2, 15));
        }
        Ok(_) => panic!("a short buffer must be rejected"),
    }
    // one byte long
    let mut long = buf.clone();
    long.push(0);
    assert!(Icon::from_rgba(long, 2, 2).is_err());
    // wrong dimensions for the same buffer
    assert!(Icon::from_rgba(buf.clone(), 4, 4).is_err());
    // and the exact buffer passes
    assert!(Icon::from_rgba(buf, 2, 2).is_ok());
}

#[test]
fn from_rgba_empty_zero_dimensions() {
    let icon = PlatformIcon::from_rgba(Vec::new(), 0, 0).unwrap();
    assert_eq!(icon.get_size(), (0, 0));
}

#[test]
fn png_round_trip_reproduces_rgba() {
    let mut buf = Vec::new();
    for i in 0..(4 * 3 * 4) {
        buf.push((i * 7 % 256) as u8);
    }
    let icon = Icon::from_rgba(buf.clone(), 4, 3).unwrap();
    let png_bytes = icon.to_png().unwrap();
    // a second call yields the same bytes: the encoding is a pure function
    assert_eq!(icon.to_png().unwrap(), png_bytes);

    let decoder = png::Decoder::new(std::io::Cursor::new(&png_bytes[..]));
    let mut reader = decoder.read_info().unwrap();
    let mut out = vec![0u8; reader.output_buffer_size().unwrap()];
    let info = reader.next_frame(&mut out).unwrap();
    assert_eq!(info.width, 4);
    assert_eq!(info.height, 3);
    assert_eq!(info.color_type, png::ColorType::Rgba);
    assert_eq!(&out[..info.buffer_size()], &buf[..]);
}

#[test]
fn pixel_convert_to_bgra_swaps_channels() {
    let mut p = Pixel { r: 1, g: 2, b: 3, a: 4 };
    p.convert_to_bgra();
    assert_eq!(p, Pixel { r: 3, g: 2, b: 1, a: 4 });
}

#[test]
fn bgra_and_mask_conversion() {
    // two pixels: (10, 20, 30, 255) and (1, 2, 3, 7)
    let rgba = vec![10, 20, 30, 255, 1, 2, 3, 7];
    let (bgra, mask) = rgba_to_bgra_and_mask(&rgba);
    assert_eq!(bgra, vec![30, 20, 10, 255, 3, 2, 1, 7]);
    // the mask byte is alpha plus one, wrapping
    assert_eq!(mask, vec![0, 8]);
}
