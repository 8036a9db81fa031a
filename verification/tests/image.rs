use firkin::image::{
    F32Bits, Image, MapError, MemoryMappedImage, MutableImage, OwnedImage, Pixel,
};
use firkin::units::{DistPx, PX};

#[test]
fn create() {
    let w = DistPx::new(256);
    let h = DistPx::new(128);
    let i = OwnedImage::<i32>::new(w, h);

    let (dw, dh) = i.dimensions();
    assert_eq!(dw, w);
    assert_eq!(dh, h);
    assert_eq!(i.pixels().len(), (w.per(PX) * h.per(PX)) as usize);
    assert!(i.pixels().iter().all(|x| *x == 0));
}

#[test]
fn indexing() {
    let w = 256i64;
    let h = 128i64;
    let mut mut_img = OwnedImage::<i32>::new(DistPx::of(w, PX), DistPx::of(h, PX));

    for y in 0..h {
        for x in 0..w {
            mut_img.set(DistPx::of(x, PX), DistPx::of(y, PX), ((1000 * y) + x) as i32);
        }
    }

    let img = &mut_img;
    for y in 0..h {
        for x in 0..w {
            assert_eq!(img.get(DistPx::of(x, PX), DistPx::of(y, PX)), ((1000 * y) + x) as i32);
        }
    }
}

#[test]
fn zero_initialized_image_reads_zero_everywhere() {
    let img = OwnedImage::<i16>::new(DistPx::of(7, PX), DistPx::of(5, PX));
    for y in 0..5i64 {
        for x in 0..7i64 {
            assert_eq!(img.get(DistPx::of(x, PX), DistPx::of(y, PX)), 0i16);
        }
    }
}

#[test]
fn fill_overwrites_every_sample() {
    let mut img = OwnedImage::<i16>::new(DistPx::of(4, PX), DistPx::of(3, PX));
    img.fill(-77);
    assert!(img.pixels().iter().all(|p| *p == -77));
}

fn raw_image_bytes<F: Fn(i64, i64) -> Vec<u8>>(w: i64, h: i64, sample: F) -> Vec<u8> {
    let mut bytes = Vec::new();
    for y in 0..h {
        for x in 0..w {
            bytes.extend_from_slice(&sample(x, y));
        }
    }
    bytes
}

#[test]
fn mapping_an_i32_file() {
    let width = DistPx::of(256, PX);
    let height = DistPx::of(128, PX);

    let bytes = raw_image_bytes(256, 128, |x, y| (((1000 * y) + x) as i32).to_le_bytes().to_vec());
    let img = MemoryMappedImage::<i32>::from_bytes(&bytes, width, height).unwrap();

    let (dw, dh) = img.dimensions();
    assert_eq!(dw, width);
    assert_eq!(dh, height);
    assert_eq!(img.pixels().len(), 256 * 128);

    for y in 0..128i64 {
        for x in 0..256i64 {
            let px = img.get(DistPx::of(x, PX), DistPx::of(y, PX));
            assert_eq!(((y * 1000) + x) as i32, px);
        }
    }
}

#[test]
fn mapping_an_f32_file() {
    let width = DistPx::of(256, PX);
    let height = DistPx::of(128, PX);

    let bytes =
        raw_image_bytes(256, 128, |x, y| (((1000 * y) + x) as f32).to_le_bytes().to_vec());
    let img = MemoryMappedImage::<F32Bits>::from_bytes(&bytes, width, height).unwrap();

    for y in 0..128i64 {
        for x in 0..256i64 {
            let px = img.get(DistPx::of(x, PX), DistPx::of(y, PX));
            assert_eq!((((y * 1000) + x) as f32).to_bits(), px.bits);
        }
    }
}

#[test]
fn mapping_an_i16_file_round_trips_every_byte() {
    let width = DistPx::of(5, PX);
    let height = DistPx::of(4, PX);

    let bytes = raw_image_bytes(5, 4, |x, y| ((7 * y - 3 * x) as i16).to_le_bytes().to_vec());
    let img = MemoryMappedImage::<i16>::from_bytes(&bytes, width, height).unwrap();

    let mut read_back = Vec::new();
    for y in 0..4i64 {
        for x in 0..5i64 {
            let px = img.get(DistPx::of(x, PX), DistPx::of(y, PX));
            read_back.extend_from_slice(&px.to_le_bytes());
        }
    }
    assert_eq!(read_back, bytes);
}

#[test]
fn mapping_a_wrongly_sized_i16_file_fails() {
    let width = DistPx::of(3, PX);
    let height = DistPx::of(3, PX);

    let short = vec![0u8; 3 * 3 * 2 - 1];
    assert!(matches!(
        MemoryMappedImage::<i16>::from_bytes(&short, width, height),
        Err(MapError::SizeMismatch)
    ));

    let long = vec![0u8; 3 * 3 * 2 + 2];
    assert!(matches!(
        MemoryMappedImage::<i16>::from_bytes(&long, width, height),
        Err(MapError::SizeMismatch)
    ));
}

#[test]
fn mapping_a_wrongly_sized_f32_file_fails() {
    let width = DistPx::of(3, PX);
    let height = DistPx::of(3, PX);

    let short = vec![0u8; 3 * 3 * 4 - 2];
    assert!(matches!(
        MemoryMappedImage::<F32Bits>::from_bytes(&short, width, height),
        Err(MapError::SizeMismatch)
    ));
}

#[test]
fn decoding_is_little_endian_twos_complement() {
    let width = DistPx::of(2, PX);
    let height = DistPx::of(1, PX);

    // -2 is 0xfffe, and 0x0102 is 258, little-endian on disk.
    let bytes = vec![0xfe, 0xff, 0x02, 0x01];
    let img = MemoryMappedImage::<i16>::from_bytes(&bytes, width, height).unwrap();
    assert_eq!(img.get(DistPx::of(0, PX), DistPx::of(0, PX)), -2i16);
    assert_eq!(img.get(DistPx::of(1, PX), DistPx::of(0, PX)), 258i16);

    assert_eq!(i16::byte_width(), 2);
    assert_eq!(i32::byte_width(), 4);
    assert_eq!(F32Bits::byte_width(), 4);
}
