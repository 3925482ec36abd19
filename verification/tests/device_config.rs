use zencan::device_config::{
    mandatory_objects, pdo_objects, validate_unique_indices, AccessTypeDeser, DataType, DataTypeNameError,
    DeviceConfig, IdentityConfig, LoadError, Object, ObjectDefinition, PdoConfig, PdoMapping, RecordDefinition,
    SubDefinition, VarDefinition,
};
use zencan::object_model::types::{AccessType, ObjectCode};

fn config() -> DeviceConfig {
    DeviceConfig {
        device_name: "can-io".to_string(),
        hardware_version: "rev1".to_string(),
        software_version: "v0.0.1".to_string(),
        heartbeat_period: 1000,
        identity: IdentityConfig { vendor_id: 0xCAFE, product_code: 1032, revision_number: 1 },
        pdos: PdoConfig { num_tpdo: 2, num_rpdo: 1 },
        objects: Vec::new(),
    }
}

fn var(index: u16) -> ObjectDefinition {
    ObjectDefinition {
        index,
        parameter_name: "x".to_string(),
        application_callback: false,
        object: Object::Var(VarDefinition {
            data_type: DataType::UInt8,
            access_type: AccessTypeDeser(AccessType::Rw),
            default_value: None,
            pdo_mapping: PdoMapping::NotMappable,
            persist: false,
        }),
    }
}

fn sub(sub_index: u8) -> SubDefinition {
    SubDefinition {
        sub_index,
        parameter_name: String::new(),
        field_name: None,
        data_type: DataType::UInt8,
        access_type: AccessTypeDeser::default(),
        default_value: None,
        pdo_mapping: PdoMapping::default(),
        persist: false,
    }
}

#[test]
fn mandatory_objects_of_a_device() {
    let objects = mandatory_objects(&config());
    let indices: Vec<u16> = objects.iter().map(|o| o.index).collect();
    assert_eq!(indices, vec![0x1000, 0x1001, 0x1008, 0x1009, 0x100A, 0x1010, 0x1017, 0x1018, 0x5000]);
    assert_eq!(objects[2].parameter_name, "Manufacturer Device Name");
    match &objects[2].object {
        Object::Var(v) => assert_eq!(v.data_type, DataType::VisibleString(6)),
        _ => panic!("expected a var"),
    }
    assert_eq!(objects[5].object_code(), ObjectCode::Array);
    assert!(objects[5].application_callback);
    match &objects[7].object {
        Object::Record(r) => {
            assert_eq!(r.subs.len(), 4);
            assert_eq!(r.subs[0].field_name.as_deref(), Some("vendor_id"));
        }
        _ => panic!("expected a record"),
    }
}

#[test]
fn pdo_objects_are_named_and_numbered() {
    let objects = pdo_objects(1, 2);
    let indices: Vec<u16> = objects.iter().map(|o| o.index).collect();
    assert_eq!(indices, vec![0x1400, 0x1600, 0x1800, 0x1A00, 0x1801, 0x1A01]);
    assert_eq!(objects[0].parameter_name, "RPDO0 Communication Parameter");
    assert_eq!(objects[5].parameter_name, "TPDO1 Mapping Parameters");
    match &objects[5].object {
        Object::Record(r) => {
            assert_eq!(r.subs.len(), 10);
            assert_eq!(r.subs[0].parameter_name, "Valid Mappings");
            assert_eq!(r.subs[9].parameter_name, "TPDO1 Mapping App Object 9");
            assert_eq!(r.subs[9].sub_index, 9);
        }
        _ => panic!("expected a record"),
    }
    match &objects[2].object {
        Object::Record(r) => assert_eq!(r.subs[0].parameter_name, "COB-ID for TPDO0"),
        _ => panic!("expected a record"),
    }
}

#[test]
fn duplicate_objects_errors() {
    let objects = vec![var(0x2000), var(0x2001), var(0x2000)];
    match validate_unique_indices(&objects) {
        Err(LoadError::DuplicateObjectIds { id }) => assert_eq!(id, 0x2000),
        other => panic!("expected a duplicate object, got {other:?}"),
    }
}

#[test]
fn duplicate_sub_object_errors() {
    let record = ObjectDefinition {
        index: 0x2000,
        parameter_name: String::new(),
        application_callback: false,
        object: Object::Record(RecordDefinition { subs: vec![sub(1), sub(2), sub(1)] }),
    };
    match validate_unique_indices(&[record]) {
        Err(LoadError::DuplicateSubObjects { index, sub }) => assert_eq!((index, sub), (0x2000, 1)),
        other => panic!("expected a duplicate sub, got {other:?}"),
    }
}

#[test]
fn standard_objects_are_added_and_checked() {
    let c = config().with_standard_objects().unwrap();
    assert_eq!(c.objects.len(), 9 + 2 * 3);
    let mut clash = config();
    clash.objects.push(var(0x1018));
    assert!(matches!(clash.with_standard_objects(), Err(LoadError::DuplicateObjectIds { id: 0x1018 })));
}

#[test]
fn data_type_names() {
    assert_eq!(DataType::from_lowercase("uint16"), Ok(DataType::UInt16));
    assert_eq!(DataType::from_lowercase("visiblestring(12)"), Ok(DataType::VisibleString(12)));
    assert_eq!(DataType::from_lowercase("octetstring(0)"), Ok(DataType::OctetString(0)));
    assert_eq!(DataType::from_lowercase("unicodestring()"), Err(DataTypeNameError::InvalidType));
    assert_eq!(
        DataType::from_lowercase("visiblestring(99999999999999999999999)"),
        Err(DataTypeNameError::InvalidSize)
    );
    assert_eq!(DataType::from_lowercase("float"), Err(DataTypeNameError::InvalidType));
    assert_eq!(DataType::TimeOfDay.size(), 6);
    assert_eq!(DataType::TimeDifference.size(), 6);
    assert!(DataType::VisibleString(3).is_str());
    assert_eq!(AccessTypeDeser::from_lowercase("const"), Some(AccessTypeDeser(AccessType::Const)));
    assert_eq!(AccessTypeDeser::from_lowercase("x"), None);
    assert_eq!(AccessTypeDeser::from(AccessType::Wo), AccessTypeDeser(AccessType::Wo));
    assert!(PdoMapping::Tpdo.supports_tpdo() && !PdoMapping::Tpdo.supports_rpdo());
    assert_eq!(PdoConfig::default(), PdoConfig { num_tpdo: 4, num_rpdo: 4 });
}

fn test_device() -> DeviceConfig {
    DeviceConfig {
        device_name: "test".to_string(),
        hardware_version: String::new(),
        software_version: String::new(),
        heartbeat_period: 0,
        identity: IdentityConfig { vendor_id: 0, product_code: 1, revision_number: 2 },
        pdos: PdoConfig { num_tpdo: 4, num_rpdo: 4 },
        objects: Vec::new(),
    }
}

fn int16_var(index: u16, name: &str) -> ObjectDefinition {
    ObjectDefinition {
        index,
        parameter_name: name.to_string(),
        application_callback: false,
        object: Object::Var(VarDefinition {
            data_type: DataType::Int16,
            access_type: AccessTypeDeser(AccessType::Rw),
            default_value: None,
            pdo_mapping: PdoMapping::NotMappable,
            persist: false,
        }),
    }
}

fn int16_sub(sub_index: u8, name: &str) -> SubDefinition {
    SubDefinition {
        sub_index,
        parameter_name: name.to_string(),
        field_name: None,
        data_type: DataType::Int16,
        access_type: AccessTypeDeser(AccessType::Rw),
        default_value: None,
        pdo_mapping: PdoMapping::default(),
        persist: false,
    }
}

#[test]
fn test_duplicate_objects_errors() {
    let mut cfg = test_device();
    cfg.objects.push(int16_var(0x2000, "Test1"));
    cfg.objects.push(ObjectDefinition {
        index: 0x2000,
        parameter_name: "Duplicate".to_string(),
        application_callback: false,
        object: Object::Record(RecordDefinition { subs: Vec::new() }),
    });
    let result = cfg.with_standard_objects();
    assert!(result.is_err());
    let err = result.unwrap_err();
    assert!(matches!(err, LoadError::DuplicateObjectIds { id: 0x2000 }));
    assert!("Multiple definitions for object with index 0x2000".contains(err.message().as_str()));
}

#[test]
fn test_duplicate_sub_object_errors() {
    let mut cfg = test_device();
    cfg.objects.push(ObjectDefinition {
        index: 0x2000,
        parameter_name: "Duplicate".to_string(),
        application_callback: false,
        object: Object::Record(RecordDefinition { subs: vec![int16_sub(1, "Test1"), int16_sub(1, "RepeatedTest1")] }),
    });
    let result = cfg.with_standard_objects();
    assert!(result.is_err());
    let err = result.unwrap_err();
    assert!(matches!(err, LoadError::DuplicateSubObjects { index: 0x2000, sub: 1 }));
    assert!("Multiple definitions of sub index 1 on object 0x2000".contains(err.message().as_str()));
}

#[test]
fn load_error_messages_name_the_index_in_hex() {
    assert_eq!(LoadError::DuplicateObjectIds { id: 0x1a2f }.message(), "Multiple definitions for object with index 0x1a2f");
    assert_eq!(
        LoadError::DuplicateSubObjects { index: 0x100, sub: 42 }.message(),
        "Multiple definitions of sub index 42 on object 0x100"
    );
    assert_eq!(LoadError::DuplicateObjectIds { id: 0 }.message(), "Multiple definitions for object with index 0x0");
}
