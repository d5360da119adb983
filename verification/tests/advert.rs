use weather_station::advert::{
    declared_length, handle_ota_update, read_advertisement, response_headers, FirmwareImage,
    UpdateAdvertisement, STATUS_OK,
};
use weather_station::header::{get_crc, Header};

#[test]
fn response_announces_the_image() {
    let image = FirmwareImage::new(b"123456789".to_vec()).unwrap();
    let response = handle_ota_update(&image);
    assert_eq!(response.status, 200);
    assert_eq!(response.content_length, 9);
    assert_eq!(response.chunked_threshold, usize::MAX);
    assert_eq!(
        response.headers,
        vec![
            Header { name: b"Content-Type".to_vec(), value: b"application/octet-stream".to_vec() },
            Header { name: b"target_crc".to_vec(), value: b"3421780262".to_vec() },
        ]
    );
}

#[test]
fn status_is_ok() {
    assert_eq!(STATUS_OK, 200);
}

#[test]
fn image_keeps_its_bytes_and_knows_their_checksum() {
    let image = FirmwareImage::new(b"hello world".to_vec()).unwrap();
    assert_eq!(image.len(), 11);
    assert_eq!(image.checksum(), 222_957_957);
    assert_eq!(image.bytes(), b"hello world");
    assert_eq!(
        image.advertisement(),
        UpdateAdvertisement { content_length: 11, target_checksum: 222_957_957 }
    );
    assert_eq!(image.into_bytes(), b"hello world".to_vec());
}

#[test]
fn empty_image_is_an_image() {
    let image = FirmwareImage::new(Vec::new()).unwrap();
    assert_eq!(image.len(), 0);
    assert_eq!(image.checksum(), 0);
    let response = handle_ota_update(&image);
    assert_eq!(response.content_length, 0);
    assert_eq!(response.headers[1].value, b"0".to_vec());
}

#[test]
fn response_headers_state_the_checksum_in_decimal() {
    let headers = response_headers(0xDEAD_BEEF);
    assert_eq!(headers.len(), 2);
    assert_eq!(headers[0].name, b"Content-Type".to_vec());
    assert_eq!(headers[0].value, b"application/octet-stream".to_vec());
    assert_eq!(headers[1].name, b"target_crc".to_vec());
    assert_eq!(headers[1].value, b"3735928559".to_vec());
}

#[test]
fn agent_reads_back_what_the_publisher_announced() {
    for crc in [0u32, 1, 0xDEAD_BEEF, u32::MAX] {
        assert_eq!(get_crc(&response_headers(crc)), crc);
    }
    let image = FirmwareImage::new((0..5000u32).map(|i| i as u8).collect()).unwrap();
    let response = handle_ota_update(&image);
    let advert = read_advertisement(Some(response.content_length as usize), &response.headers);
    assert_eq!(advert, image.advertisement());
}

#[test]
fn declared_length_of_a_response() {
    assert_eq!(declared_length(Some(5000)), 5000);
    assert_eq!(declared_length(Some(0)), 0);
    assert_eq!(declared_length(None), 0);
    assert_eq!(declared_length(Some(u32::MAX as usize)), u32::MAX);
}

#[test]
fn declared_length_keeps_the_low_32_bits() {
    let wide = (1u64 << 32) + 5;
    if let Ok(n) = usize::try_from(wide) {
        assert_eq!(declared_length(Some(n)), 5);
    }
}

#[test]
fn advertisement_is_read_from_length_and_headers() {
    let headers = vec![
        Header { name: b"Server".to_vec(), value: b"tiny".to_vec() },
        Header { name: b"Target_CRC".to_vec(), value: b" 305419896 ".to_vec() },
    ];
    assert_eq!(
        read_advertisement(Some(10_000), &headers),
        UpdateAdvertisement { content_length: 10_000, target_checksum: 0x1234_5678 }
    );
    assert_eq!(
        read_advertisement(None, &headers),
        UpdateAdvertisement { content_length: 0, target_checksum: 0x1234_5678 }
    );
}
