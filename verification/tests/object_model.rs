use std::time::Duration;
use zencan::can::CanId;
use zencan::object_model::pdo::{
    cob_word, pdo_config_from, pdo_writes, rpdo_indices, tpdo_indices, ObjectWrite, PdoCommParameter, PdoConfig,
    PdoMapping,
};
use zencan::object_model::object_spec::{ArraySpec, DefaultValue, SubObjectSpec};
use zencan::object_model::time_types::{TimeCreateError, TimeDifference, TimeOfDay};
use zencan::object_model::types::{AccessType, DataType, ObjectCode, PdoMappable};
use zencan::objects::{DataType as CodedType, SubInfo};

#[test]
fn object_codes_round_trip() {
    for code in [0u8, 2, 5, 6, 7, 8, 9] {
        let c = ObjectCode::try_from(code).unwrap();
        assert_eq!(c.raw(), code);
    }
    assert_eq!(ObjectCode::try_from(1), Err(()));
    assert_eq!(ObjectCode::default(), ObjectCode::Var);
}

#[test]
fn data_type_sizes() {
    assert_eq!(DataType::UInt24.size(), 3);
    assert_eq!(DataType::VisibleString(12).size(), 12);
    assert_eq!(DataType::TimeOfDay.size(), 6);
    assert_eq!(DataType::Domain.size(), 0);
    assert!(DataType::OctetString(3).is_str());
    assert!(!DataType::Int64.is_str());
}

#[test]
fn access_and_mapping_permissions() {
    assert!(AccessType::Const.is_readable());
    assert!(!AccessType::Wo.is_readable());
    assert!(AccessType::Wo.is_writable());
    assert!(!AccessType::Const.is_writable());
    assert_eq!(AccessType::from_name("rw"), Ok(AccessType::Rw));
    assert_eq!(AccessType::from_name("RW"), Err(()));
    assert!(PdoMappable::Both.supports_tpdo() && PdoMappable::Both.supports_rpdo());
    assert!(!PdoMappable::Rpdo.supports_tpdo());
    assert!(!PdoMappable::NotMappable.supports_rpdo());
}

#[test]
fn time_of_day_bytes_and_dates() {
    let t = TimeOfDay::new(366, 1000);
    let bytes = t.to_le_bytes();
    assert_eq!(bytes, [0xe8, 0x03, 0, 0, 0x6e, 0x01]);
    assert_eq!(TimeOfDay::from_le_bytes(bytes), t);
    assert_eq!(t.date_ymd(), (1985, 1, 1));
    assert_eq!(TimeOfDay::new(0, 0).date_ymd(), (1984, 1, 1));
    assert_eq!(t.total_millis(), 366 * 86_400_000 + 1000);
    assert_eq!(t.time_duration(), Duration::from_millis(1000));
    let d = TimeDifference::new(1, 5);
    assert_eq!(d.as_duration(), Duration::from_millis(86_400_005));
    assert_eq!(TimeDifference::from_le_bytes(d.to_le_bytes()), d);
}

#[test]
fn pdo_mapping_values() {
    let m = PdoMapping { index: 0x2000, sub: 3, size: 16 };
    assert_eq!(m.to_object_value(), 0x2000_0310);
    assert_eq!(PdoMapping::from_object_value(0x2000_0310), m);
}

#[test]
fn cob_words() {
    assert_eq!(cob_word(CanId::standard(0x181), true, false), 0x181);
    assert_eq!(cob_word(CanId::standard(0x181), false, true), 0xC000_0181);
    assert_eq!(cob_word(CanId::extended(0x1234), true, false), 0x2000_1234);
    let p = PdoCommParameter::from_cob_word(0xA000_1234, 254);
    assert_eq!(p, PdoCommParameter { valid: false, rtr_disabled: false, cob_id: CanId::extended(0x1234), transmission_type: 254 });
}

#[test]
fn pdo_configuration_writes_and_read_back() {
    let comm = PdoCommParameter { valid: true, rtr_disabled: false, cob_id: CanId::standard(0x190), transmission_type: 254 };
    let mappings = vec![PdoMapping { index: 0x2000, sub: 1, size: 8 }, PdoMapping { index: 0x2001, sub: 0, size: 16 }];
    let cfg = PdoConfig { comm, mappings: mappings.clone() };
    let (ci, mi) = tpdo_indices(1);
    assert_eq!((ci, mi), (0x1801, 0x1A01));
    assert_eq!(rpdo_indices(2), (0x1402, 0x1602));
    let w = pdo_writes(ci, mi, &cfg);
    assert_eq!(
        w,
        vec![
            ObjectWrite::U8 { index: 0x1801, sub: 2, value: 254 },
            ObjectWrite::U32 { index: 0x1801, sub: 1, value: 0x8000_0190 },
            ObjectWrite::U8 { index: 0x1A01, sub: 0, value: 0 },
            ObjectWrite::U32 { index: 0x1A01, sub: 1, value: 0x2000_0108 },
            ObjectWrite::U32 { index: 0x1A01, sub: 2, value: 0x2001_0010 },
            ObjectWrite::U8 { index: 0x1A01, sub: 0, value: 2 },
            ObjectWrite::U8 { index: 0x1801, sub: 2, value: 254 },
            ObjectWrite::U32 { index: 0x1801, sub: 1, value: 0x190 },
        ]
    );
    let back = pdo_config_from(0x190, 254, &[0x2000_0108, 0x2001_0010]);
    assert_eq!(back.comm, comm);
    assert_eq!(back.mappings, mappings);
    let disabled = PdoConfig { comm: PdoCommParameter { valid: false, ..comm }, mappings: Vec::new() };
    assert_eq!(pdo_writes(ci, mi, &disabled).len(), 4);
}

#[test]
fn coded_data_types_and_sub_info() {
    assert_eq!(CodedType::from(7u16), CodedType::UInt32);
    assert_eq!(CodedType::from(0xcu16), CodedType::Other(0xc));
    assert_eq!(CodedType::TimeOfDay.code(), 0xc);
    assert!(CodedType::VisibleString.is_str());
    let s = SubInfo::new_u16().rw_access().persist(true);
    assert_eq!(s.size, 2);
    assert_eq!(s.data_type, CodedType::UInt16);
    assert_eq!(s.access_type, AccessType::Rw);
    assert!(s.persist);
    assert_eq!(SubInfo::new_visibile_str(10).size, 10);
    assert_eq!(SubInfo::max_sub_number().access_type, AccessType::Const);
    assert_eq!(SubInfo::new_u8().wo_access().const_access().ro_access().access_type, AccessType::Ro);
    assert_eq!(SubInfo::new_u32().size, 4);
}

#[test]
fn time_of_day_from_date_and_time() {
    assert_eq!(TimeOfDay::from_ymd_hms_ms(1984, 1, 1, 0, 0, 0, 0), Ok(TimeOfDay::new(0, 0)));
    assert_eq!(TimeOfDay::from_ymd_hms_ms(1984, 1, 2, 0, 0, 1, 5), Ok(TimeOfDay::new(1, 1005)));
    let t = TimeOfDay::from_ymd_hms_ms(2024, 2, 29, 13, 14, 15, 16).unwrap();
    assert_eq!(t.date_ymd(), (2024, 2, 29));
    assert_eq!(t.time_hmsm(), (13, 14, 15, 16));
    assert_eq!(TimeOfDay::from_ymd_hms_ms(1983, 12, 31, 0, 0, 0, 0), Err(TimeCreateError::PreEpoch));
    assert_eq!(TimeOfDay::from_ymd_hms_ms(2200, 1, 1, 0, 0, 0, 0), Err(TimeCreateError::OutOfRange));
    assert_eq!(TimeOfDay::from_ymd_hms_ms(2023, 2, 29, 0, 0, 0, 0), Err(TimeCreateError::InvalidDate));
    assert_eq!(TimeOfDay::from_ymd_hms_ms(2023, 13, 1, 0, 0, 0, 0), Err(TimeCreateError::InvalidDate));
    assert_eq!(TimeOfDay::from_ymd_hms_ms(2023, 1, 1, 24, 0, 0, 0), Err(TimeCreateError::InvalidDate));
    // Less than a day before the epoch is before the epoch all the same.
    assert_eq!(TimeOfDay::from_ymd_hms_ms(1983, 12, 31, 12, 0, 0, 0), Err(TimeCreateError::PreEpoch));
    assert_eq!(TimeOfDay::from_ymd_hms_ms(1983, 12, 31, 23, 59, 59, 999), Err(TimeCreateError::PreEpoch));
}

#[test]
fn time_of_day_from_epoch_delta_and_parts() {
    assert_eq!(TimeOfDay::from_epoch_delta(None), Err(TimeCreateError::InvalidDate));
    assert_eq!(TimeOfDay::from_epoch_delta(Some(86_400_000 + 7)), Ok(TimeOfDay::new(1, 7)));
    assert_eq!(TimeOfDay::from_epoch_delta(Some(-86_400_000)), Err(TimeCreateError::PreEpoch));
    assert_eq!(TimeOfDay::from_epoch_delta(Some(-1)), Err(TimeCreateError::PreEpoch));
    assert_eq!(TimeOfDay::from_epoch_delta(Some(0)), Ok(TimeOfDay::new(0, 0)));
    assert_eq!(TimeOfDay::from_epoch_delta(Some(65_536 * 86_400_000)), Err(TimeCreateError::OutOfRange));
    assert_eq!(TimeOfDay::from_epoch_delta(Some(65_536 * 86_400_000 - 1)), Ok(TimeOfDay::new(65_535, 86_399_999)));
    assert_eq!(TimeOfDay::new(3, 3_723_004).time_hmsm(), (1, 2, 3, 4));
    assert_eq!(TimeOfDay::new(0, 86_399_999).time_hmsm(), (23, 59, 59, 999));
}

fn element(name: &str, data_type: DataType) -> SubObjectSpec {
    SubObjectSpec {
        parameter_name: name.to_string(),
        data_type,
        access_type: AccessType::Rw,
        default_value: Some(DefaultValue::from(3i32)),
        pdo_mapping: PdoMappable::Both,
        persist: true,
    }
}

#[test]
fn array_spec_holds_uniform_elements() {
    let a = ArraySpec::new(vec![element("a", DataType::UInt16), element("b", DataType::UInt16)]);
    assert_eq!(a.len(), 2);
    assert!(!a.is_empty());
    assert_eq!(a.data_type(), DataType::UInt16);
    assert_eq!(a.elements()[1].parameter_name, "b");
    let sub0 = a.sub0_spec();
    assert_eq!(sub0.parameter_name, "Max Sub");
    assert_eq!(sub0.data_type, DataType::UInt8);
    assert_eq!(sub0.access_type, AccessType::Ro);
    assert_eq!(sub0.default_value, Some(DefaultValue::Integer(2)));
    assert_eq!(sub0.pdo_mapping, PdoMappable::NotMappable);
    assert!(!sub0.persist);
    assert_eq!(a.clone(), a);
    let custom = ArraySpec::new_custom_sub0(element("n", DataType::UInt8), vec![element("x", DataType::Int32)]);
    assert_eq!(custom.sub0_spec().access_type, AccessType::Rw);
    assert_eq!(custom.data_type(), DataType::Int32);
}

#[test]
fn default_values_from_integers_and_text() {
    assert_eq!(DefaultValue::from(-5i64), DefaultValue::Integer(-5));
    assert_eq!(DefaultValue::from(7i32), DefaultValue::Integer(7));
    assert_eq!(DefaultValue::from(9usize), DefaultValue::Integer(9));
    assert_eq!(DefaultValue::from_text("abc"), DefaultValue::String("abc".to_string()));
}
