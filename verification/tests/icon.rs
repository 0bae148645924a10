use thide::icon::{largest_icon_entry, load_icon_file, IconError};

/// One BMP image for an ICO file: a 32-bit BGRA bitmap of `width` x 1.
fn bmp_image(width: i32, bits_per_pixel: u16, pixels: &[u8]) -> Vec<u8> {
    let mut d = Vec::new();
    d.extend_from_slice(&40u32.to_le_bytes());
    d.extend_from_slice(&width.to_le_bytes());
    d.extend_from_slice(&2i32.to_le_bytes()); // doubled height of 1
    d.extend_from_slice(&1u16.to_le_bytes());
    d.extend_from_slice(&bits_per_pixel.to_le_bytes());
    for _ in 0..6 {
        d.extend_from_slice(&0u32.to_le_bytes());
    }
    d.extend_from_slice(pixels);
    d
}

/// An ICO file holding the given images with their directory widths.
fn ico_file(images: &[(u8, Vec<u8>)]) -> Vec<u8> {
    let mut f = Vec::new();
    f.extend_from_slice(&0u16.to_le_bytes());
    f.extend_from_slice(&1u16.to_le_bytes());
    f.extend_from_slice(&(images.len() as u16).to_le_bytes());
    let mut offset = 6 + 16 * images.len() as u32;
    for (w, data) in images {
        f.push(*w);
        f.push(1);
        f.push(0);
        f.push(0);
        f.extend_from_slice(&1u16.to_le_bytes());
        f.extend_from_slice(&32u16.to_le_bytes());
        f.extend_from_slice(&(data.len() as u32).to_le_bytes());
        f.extend_from_slice(&offset.to_le_bytes());
        offset += data.len() as u32;
    }
    for (_, data) in images {
        f.extend_from_slice(data);
    }
    f
}

#[test]
fn loads_single_image_as_rgba() {
    let file = ico_file(&[(1, bmp_image(1, 32, &[0x10, 0x20, 0x30, 0x40]))]);
    let icon = load_icon_file(&file).unwrap();
    assert_eq!((icon.width, icon.height), (1, 1));
    assert_eq!(icon.rgba, vec![0x30, 0x20, 0x10, 0x40]);
}

#[test]
fn picks_the_largest_image() {
    let small = bmp_image(1, 32, &[1, 2, 3, 4]);
    let large = bmp_image(2, 32, &[5, 6, 7, 8, 9, 10, 11, 12]);
    let file = ico_file(&[(1, small.clone()), (2, large), (1, small)]);
    let icon = load_icon_file(&file).unwrap();
    assert_eq!((icon.width, icon.height), (2, 1));
    assert_eq!(icon.rgba, vec![7, 6, 5, 8, 11, 10, 9, 12]);
}

#[test]
fn largest_entry_is_the_last_of_the_largest() {
    assert_eq!(largest_icon_entry(&vec![]), None);
    assert_eq!(largest_icon_entry(&vec![(16, 16, false), (32, 32, true), (32, 32, false), (8, 8, false)]), Some(2));
    assert_eq!(largest_icon_entry(&vec![(256, 256, true), (16, 16, false)]), Some(0));
    assert_eq!(largest_icon_entry(&vec![(u32::MAX, u32::MAX, true), (1, 1, true)]), Some(0));
}

#[test]
fn icon_errors() {
    assert!(matches!(load_icon_file(&[1, 0, 1, 0, 0, 0]), Err(IconError::Malformed(_))));
    assert!(matches!(load_icon_file(&[]), Err(IconError::Malformed(_))));
    assert_eq!(load_icon_file(&[0, 0, 1, 0, 0, 0]).err(), Some(IconError::NoEntries));
    let bad_depth = ico_file(&[(1, bmp_image(1, 3, &[0, 0, 0, 0]))]);
    assert!(matches!(load_icon_file(&bad_depth), Err(IconError::Undecodable(_))));
    let huge = ico_file(&[(0, bmp_image(0x1000_0000, 32, &[]))]);
    assert_eq!(load_icon_file(&huge).err(), Some(IconError::TooLarge));
    // A depth the decoder rejects is refused before any size arithmetic.
    let huge_bad_depth = ico_file(&[(0, bmp_image(0x1000_0000, 3, &[]))]);
    assert!(matches!(load_icon_file(&huge_bad_depth), Err(IconError::Undecodable(_))));
    // A short BMP header is refused by the decoder too.
    let short = ico_file(&[(1, vec![40, 0, 0, 0, 1, 0, 0, 0])]);
    assert!(matches!(load_icon_file(&short), Err(IconError::Undecodable(_))));
}
