use gui::component::rgb_to_u32;

#[test]
fn rgb_to_u32_packs_channels() {
    assert_eq!(rgb_to_u32(195, 197, 203), 0xC3C5CB);
    assert_eq!(rgb_to_u32(0, 0, 0), 0);
    assert_eq!(rgb_to_u32(255, 255, 255), 0xFFFFFF);
    assert_eq!(rgb_to_u32(0, 153, 255), 0x0099FF);
}

#[test]
fn rgb_channels_can_be_read_back() {
    for &(r, g, b) in &[(1u8, 2u8, 3u8), (255, 0, 128), (0, 255, 0), (17, 34, 51)] {
        let c = rgb_to_u32(r, g, b);
        assert_eq!((c >> 16) as u8, r);
        assert_eq!(((c >> 8) & 0xff) as u8, g);
        assert_eq!((c & 0xff) as u8, b);
    }
    assert_ne!(rgb_to_u32(1, 0, 0), rgb_to_u32(0, 255, 255));
}
