use zencan::can::CanId;
use zencan::node_configuration::{
    integer_value, pdo_numbers, PdoConfig, PdoMapping, PdoNumberError, Store, StoreRange, StoreType, StoreValue,
};
use zencan::object_model::pdo::PdoCommParameter;

#[test]
fn store_values_as_bytes() {
    assert_eq!(StoreValue::U32(0x0102_0304).raw(), vec![4, 3, 2, 1]);
    assert_eq!(StoreValue::U16(0x0102).raw(), vec![2, 1]);
    assert_eq!(StoreValue::U8(7).raw(), vec![7]);
    assert_eq!(StoreValue::I32(-2).raw(), vec![0xFE, 0xFF, 0xFF, 0xFF]);
    assert_eq!(StoreValue::I16(-2).raw(), vec![0xFE, 0xFF]);
    assert_eq!(StoreValue::I8(-1).raw(), vec![0xFF]);
    assert_eq!(StoreValue::F32(1.5f32.to_bits()).raw(), 1.5f32.to_le_bytes().to_vec());
    assert_eq!(StoreValue::String("hé".to_string()).raw(), "hé".as_bytes().to_vec());
    let store = Store { index: 0x1000, sub: 0, value: StoreValue::U32(12) };
    assert_eq!(store.raw_value(), vec![12, 0, 0, 0]);
}

#[test]
fn integer_store_values_are_range_checked() {
    assert_eq!(integer_value(StoreType::U8, 255), Ok(StoreValue::U8(255)));
    assert_eq!(integer_value(StoreType::U8, 256), Err(StoreRange::U8));
    assert_eq!(StoreRange::U8.expected(), "an integer in range [0..256]");
    assert_eq!(integer_value(StoreType::U16, -1), Err(StoreRange::U16));
    assert_eq!(integer_value(StoreType::U32, 0xFFFF_FFFF), Ok(StoreValue::U32(0xFFFF_FFFF)));
    assert_eq!(integer_value(StoreType::U32, 0x1_0000_0000), Err(StoreRange::U32));
    assert_eq!(integer_value(StoreType::I32, -0x8000_0000), Ok(StoreValue::I32(i32::MIN)));
    assert_eq!(integer_value(StoreType::I16, 32768), Err(StoreRange::I16));
    assert_eq!(integer_value(StoreType::I8, -128), Ok(StoreValue::I8(-128)));
    assert_eq!(integer_value(StoreType::I8, 128), Err(StoreRange::I8));
    assert_eq!(StoreRange::I16.expected(), "an integer in range [-32767..32768]");
}

#[test]
fn node_pdo_config_to_written_config() {
    let cfg = PdoConfig {
        cob: 0x810,
        enabled: true,
        mappings: vec![PdoMapping { index: 0x1000, sub: 1, size: 8 }, PdoMapping { index: 0x1000, sub: 2, size: 16 }],
        transmission_type: 254,
    };
    let written = cfg.to_pdo_config();
    assert_eq!(
        written.comm,
        PdoCommParameter { valid: true, rtr_disabled: false, cob_id: CanId::standard(0x810), transmission_type: 254 }
    );
    assert_eq!(written.mappings, cfg.mappings);
}

#[test]
fn pdo_table_keys_are_read_as_numbers() {
    let keys = |ks: &[&str]| ks.iter().map(|k| k.to_string()).collect::<Vec<String>>();
    assert_eq!(pdo_numbers(&keys(&["0", "3", "+12"])), Ok(vec![0, 3, 12]));
    assert_eq!(pdo_numbers(&keys(&["1", "x", "-2"])), Err(PdoNumberError::NotANumber("x".to_string())));
    assert_eq!(pdo_numbers(&keys(&["0", "2", "00"])), Err(PdoNumberError::Duplicate));
    assert_eq!(pdo_numbers(&keys(&[])), Ok(vec![]));
}
