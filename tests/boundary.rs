use refxpp::boundary::decode_path;
use refxpp::error::CalcError;

#[test]
fn utf8_path_is_decoded() {
    assert_eq!(decode_path(b"maps/1234 - song.osu"), Ok("maps/1234 - song.osu"));
    assert_eq!(decode_path("mäps/曲.osu".as_bytes()), Ok("mäps/曲.osu"));
    assert_eq!(decode_path(b""), Ok(""));
}

#[test]
fn invalid_path_text_is_refused() {
    assert_eq!(decode_path(&[0x6d, 0xff, 0x61]), Err(CalcError::InvalidPath));
    assert_eq!(decode_path(&[0xe6, 0x9b]), Err(CalcError::InvalidPath));
}
