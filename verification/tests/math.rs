use techair::CRC16;

#[test]
fn crc16() {
    let v: u16 = 0xAABB;
    let crc16 = CRC16::new(v);
    assert_eq!(crc16.as_u16(), 0xAABB);

    let data = vec![0xff; 5];
    let crc16c = CRC16::calculate(&data);
    assert_eq!(crc16c.as_u16(), 32817);
}

#[test]
fn calculate_num_pages() {
    let hfsz = 0x1080;
    let np = techair::calculate_num_pages(hfsz);
    assert_eq!(np, 0x10);
}

#[test]
fn crc16_of_nothing_is_the_initial_register() {
    assert_eq!(CRC16::calculate(&[]).as_u16(), 0xFFFF);
}

#[test]
fn crc16_check_value() {
    assert_eq!(CRC16::calculate(b"123456789").as_u16(), 0x4B37);
}

#[test]
fn crc16_is_deterministic() {
    let a: Vec<u8> = (0..=255u8).collect();
    let b = a.clone();
    assert_eq!(CRC16::calculate(&a).as_u16(), CRC16::calculate(&b).as_u16());
}

#[test]
fn crc16_agrees_with_the_crc16_crate() {
    let mut data: Vec<u8> = Vec::new();
    let mut x: u32 = 12345;
    for n in 0..300usize {
        assert_eq!(
            CRC16::calculate(&data).as_u16(),
            crc16::State::<crc16::MODBUS>::calculate(&data),
            "length {}",
            n
        );
        x = x.wrapping_mul(1103515245).wrapping_add(12345);
        data.push((x >> 16) as u8);
    }
}

#[test]
fn num_pages_of_full_pages_is_one_less() {
    for n in 1..=300usize {
        assert_eq!(techair::calculate_num_pages(n * 256) as usize, n - 1);
    }
}

#[test]
fn num_pages_of_partial_page_is_floor() {
    for len in [1usize, 255, 257, 511, 513, 514, 0x1080, 65535] {
        assert_eq!(techair::calculate_num_pages(len) as usize, len / 256);
    }
}

#[test]
fn num_pages_edges() {
    assert_eq!(techair::calculate_num_pages(1), 0);
    assert_eq!(techair::calculate_num_pages(256), 0);
    assert_eq!(techair::calculate_num_pages(257), 1);
    assert_eq!(techair::calculate_num_pages(512), 1);
    assert_eq!(techair::calculate_num_pages(514), 2);
    assert_eq!(techair::calculate_num_pages(256 * 65536), 65535);
}

#[test]
fn crc16_converts_to_its_bits() {
    assert_eq!(u16::from(CRC16::new(0xAABB)), 0xAABB);
    assert_eq!(u16::from(CRC16::calculate(&[0xff; 5])), 32817);
}
