use zencan::cli_values::{convert_read_bytes_to_string, convert_write_value_to_bytes, MismatchedSizeError};
use zencan::command::SdoDataType;
use zencan::text::decimal;

#[test]
fn read_bytes_as_text() {
    assert_eq!(convert_read_bytes_to_string(SdoDataType::U32, &[0x40, 0xe2, 0x01, 0]).unwrap(), "123456");
    assert_eq!(convert_read_bytes_to_string(SdoDataType::I16, &[0xfe, 0xff]).unwrap(), "-2");
    assert_eq!(convert_read_bytes_to_string(SdoDataType::I32, &[0, 0, 0, 0x80]).unwrap(), "-2147483648");
    assert_eq!(convert_read_bytes_to_string(SdoDataType::U8, &[7, 9]).unwrap(), "7");
    assert_eq!(convert_read_bytes_to_string(SdoDataType::I8, &[0x80]).unwrap(), "-128");
    assert_eq!(convert_read_bytes_to_string(SdoDataType::Utf8, b"hi").unwrap(), "hi");
    assert_eq!(convert_read_bytes_to_string(SdoDataType::Utf8, &[0x68, 0xff]).unwrap(), "h\u{fffd}");
    assert_eq!(convert_read_bytes_to_string(SdoDataType::U16, &[1]), Err(MismatchedSizeError {}));
    assert_eq!(convert_read_bytes_to_string(SdoDataType::U8, &[]), Err(MismatchedSizeError {}));
}

#[test]
fn write_values_as_bytes() {
    assert_eq!(convert_write_value_to_bytes(SdoDataType::U32, "0x12345678").unwrap(), vec![0x78, 0x56, 0x34, 0x12]);
    assert_eq!(convert_write_value_to_bytes(SdoDataType::U16, "513").unwrap(), vec![1, 2]);
    assert_eq!(convert_write_value_to_bytes(SdoDataType::U8, "255").unwrap(), vec![255]);
    assert_eq!(convert_write_value_to_bytes(SdoDataType::I32, "-4").unwrap(), vec![0xfc, 0xff, 0xff, 0xff]);
    assert_eq!(convert_write_value_to_bytes(SdoDataType::I16, "+3").unwrap(), vec![3, 0]);
    assert_eq!(convert_write_value_to_bytes(SdoDataType::I8, "-128").unwrap(), vec![0x80]);
    assert_eq!(convert_write_value_to_bytes(SdoDataType::Utf8, "ab").unwrap(), vec![b'a', b'b']);
    assert_eq!(
        convert_write_value_to_bytes(SdoDataType::U8, "256").unwrap_err(),
        "number too large to fit in target type"
    );
    assert_eq!(
        convert_write_value_to_bytes(SdoDataType::I8, "x").unwrap_err(),
        "invalid digit found in string"
    );
}

#[test]
fn decimal_text() {
    assert_eq!(decimal(0), "0");
    assert_eq!(decimal(10), "10");
    assert_eq!(decimal(4_294_967_295), "4294967295");
}
