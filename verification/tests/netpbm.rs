use raytracer::netpbm::{NetpbmError, PpmBitDepth, PpmDim, PpmError, PpmImage, PpmWriter};

fn six_pixels() -> Vec<[u8; 3]> {
    vec![
        [255, 0, 0],
        [0, 255, 0],
        [0, 0, 255],
        [255, 255, 0],
        [255, 255, 255],
        [0, 0, 0],
    ]
}

#[test]
fn netpbm_invalid_images() {
    let data: Vec<[u8; 3]> = six_pixels();

    let mut stream = PpmWriter::new();

    assert!(!stream.write(data.clone(), 3, 0, 255).is_ok());
    assert!(!stream.write(data.clone(), 0, 2, 255).is_ok());
    assert!(!stream.write(data.clone(), 3, 3, 255).is_ok());
    assert!(!stream.write(data.clone(), 2, 2, 255).is_ok());
    assert!(!stream.write(data.clone(), 3, 2, 0).is_ok());
    assert!(!stream.write(data.clone(), 3, 2, 65536).is_ok());
    assert!(!stream.write(data, u32::MAX, u32::MAX, 255).is_ok());
}

#[test]
fn netpbm_valid_images() {
    let data: Vec<[u8; 3]> = six_pixels();

    let mut ppmwriter = PpmWriter::new();
    let expected = [
        80, 54, 10, 51, 32, 50, 32, 50, 53, 53, 10, 255, 0, 0, 0, 255, 0, 0, 0, 255, 255, 255,
        0, 255, 255, 255, 0, 0, 0,
    ];

    assert!(ppmwriter.write(data, 3, 2, 255).is_ok());

    let inner = ppmwriter.into_inner();
    assert_eq!(inner[..], expected[..]);
}

#[test]
fn refused_image_writes_nothing() {
    let mut writer = PpmWriter::new();
    assert!(writer.write(six_pixels(), 3, 2, 255).is_ok());
    let before = writer.as_bytes().clone();
    assert!(writer.write(six_pixels(), 2, 2, 255).is_err());
    assert_eq!(writer.as_bytes(), &before);
}

#[test]
fn write_returns_zero_and_appends() {
    let mut writer = PpmWriter::new();
    assert_eq!(writer.write(vec![[1, 2, 3]], 1, 1, 255).ok(), Some(0));
    assert_eq!(writer.write(vec![[4, 5, 6]], 1, 1, 300).ok(), Some(0));
    let mut expected: Vec<u8> = vec![80, 54];
    expected.extend_from_slice(b"\n1 1 255\n\x01\x02\x03");
    expected.extend_from_slice(&[80, 54]);
    expected.extend_from_slice(b"\n1 1 300\n\x04\x05\x06");
    assert_eq!(writer.into_inner(), expected);
}

#[test]
fn dimension_messages() {
    let e = PpmImage::from(six_pixels(), 0, 2, 255).err().unwrap();
    assert_eq!(e.to_string(), "netpbm error: image dimension must be greater than 0");
    let e = PpmImage::from(six_pixels(), 3, 0, 0).err().unwrap();
    assert_eq!(e.to_string(), "netpbm error: image dimension must be greater than 0");
    assert!(PpmDim::new(0).is_err());
    assert_eq!(PpmDim::new(7).ok().unwrap().get(), 7);
    assert_eq!(PpmDim::new(u32::MAX).ok().unwrap().get(), u32::MAX);
}

#[test]
fn bitdepth_messages() {
    let text = "netpbm error: bitdepth must fall within the range [1,65535]";
    assert_eq!(PpmBitDepth::new(0).err().unwrap().to_string(), text);
    assert_eq!(PpmBitDepth::new(65536).err().unwrap().to_string(), text);
    assert_eq!(PpmBitDepth::new(1).ok().unwrap().get(), 1);
    assert_eq!(PpmBitDepth::new(65535).ok().unwrap().get(), 65535);
    let e = PpmImage::from(six_pixels(), 3, 3, 0).err().unwrap();
    assert_eq!(e.to_string(), text);
}

#[test]
fn size_message() {
    let e = PpmImage::from(six_pixels(), 3, 3, 255).err().unwrap();
    assert_eq!(
        e.to_string(),
        "netpbm error: color vector size (6) does not match dimensions (3*3=9)"
    );
    let e = PpmImage::from(six_pixels(), u32::MAX, u32::MAX, 255).err().unwrap();
    assert_eq!(
        e.to_string(),
        "netpbm error: color vector size (6) does not match dimensions \
         (4294967295*4294967295=18446744065119617025)"
    );
    let e = PpmImage::from(Vec::new(), 10, 20, 255).err().unwrap();
    assert_eq!(
        e.to_string(),
        "netpbm error: color vector size (0) does not match dimensions (10*20=200)"
    );
}

#[test]
fn channel_message_names_the_first_channel_above() {
    let data: Vec<[u8; 3]> = vec![[1, 2, 3], [3, 9, 200], [100, 0, 0]];
    let e = PpmImage::from(data.clone(), 3, 1, 3).err().unwrap();
    assert_eq!(
        e.to_string(),
        "netpbm error: channel value 9 is invalid, expected channel<=3"
    );
    let e = PpmImage::from(data.clone(), 1, 3, 9).err().unwrap();
    assert_eq!(
        e.to_string(),
        "netpbm error: channel value 200 is invalid, expected channel<=9"
    );
    assert!(PpmImage::from(data, 3, 1, 200).is_ok());
}

#[test]
fn encode_matches_write() {
    let image = PpmImage::from(six_pixels(), 2, 3, 65535).ok().unwrap();
    let mut expected: Vec<u8> = vec![80, 54];
    expected.extend_from_slice(b"\n2 3 65535\n");
    for pixel in six_pixels() {
        expected.extend_from_slice(&pixel);
    }
    assert_eq!(image.encode(), expected);
}

#[test]
fn error_carries_its_message() {
    let e = NetpbmError::from("short");
    assert_eq!(e.to_string(), "netpbm error: short");
}

#[test]
fn netbpm_invalid_images() {
    let data: Vec<[u8; 3]> = vec![
        [255, 0, 0],
        [0, 255, 0],
        [0, 0, 255],
        [255, 255, 0],
        [255, 255, 255],
        [0, 0, 0],
    ];

    let mut stream = PpmWriter::new();

    assert!(!stream.write(data.clone(), 3, 0, 255).is_ok());
    assert!(!stream.write(data.clone(), 0, 2, 255).is_ok());
    assert!(!stream.write(data.clone(), 3, 3, 255).is_ok());
    assert!(!stream.write(data.clone(), 2, 2, 255).is_ok());
    assert!(!stream.write(data.clone(), 3, 2, 0).is_ok());
    assert!(!stream.write(data.clone(), 3, 2, 65536).is_ok());
    assert!(!stream.write(data, u32::MAX, u32::MAX, 255).is_ok());
    assert!(stream.as_bytes().is_empty());
}

#[test]
fn netbpm_valid_images() {
    let data: Vec<[u8; 3]> = vec![
        [255, 0, 0],
        [0, 255, 0],
        [0, 0, 255],
        [255, 255, 0],
        [255, 255, 255],
        [0, 0, 0],
    ];

    let mut ppmwriter = PpmWriter::new();
    let expected = [
        80, 54, 10, 51, 32, 50, 32, 50, 53, 53, 10, 255, 0, 0, 0, 255, 0, 0, 0, 255, 255, 255,
        0, 255, 255, 255, 0, 0, 0,
    ];

    assert!(ppmwriter.write(data, 3, 2, 255).is_ok());

    let inner = ppmwriter.as_bytes();
    assert_eq!(inner[..], expected[..]);
}

#[test]
fn ppm_error_names_the_format() {
    let e = PpmError::from("image width must be greater than 0");
    assert_eq!(e.to_string(), "PPM error: image width must be greater than 0");
    assert_eq!(PpmError::from("").to_string(), "PPM error: ");
    assert_eq!(e.clone().to_string(), e.to_string());
}
