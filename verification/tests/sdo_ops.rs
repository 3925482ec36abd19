use std::collections::HashMap;
use zencan::can::CanId;
use zencan::object_model::pdo::{PdoCommParameter, PdoConfig, PdoMapping};
use zencan::object_model::time_types::{TimeDifference, TimeOfDay};
use zencan::protocol::lss::LssIdentity;
use zencan::sdo_client::{SdoClient, SdoClientError};
use zencan::sdo_ops::{IdentityRead, ObjectAccess, OpStep, PdoConfigRead, WriteSequence};

fn client() -> SdoClient<(), ()> {
    SdoClient::new_std(3, (), ())
}

fn write_of<T: std::fmt::Debug>(step: &OpStep<T>) -> (u16, u8, Vec<u8>) {
    match step {
        OpStep::Access(ObjectAccess::Write { index, sub, data }) => (*index, *sub, data.clone()),
        other => panic!("expected a write, got {other:?}"),
    }
}

fn read_of<T: std::fmt::Debug>(step: &OpStep<T>) -> (u16, u8) {
    match step {
        OpStep::Access(ObjectAccess::Read { index, sub }) => (*index, *sub),
        other => panic!("expected a read, got {other:?}"),
    }
}

/// Runs a write sequence where every write succeeds, collecting the writes.
fn all_writes(started: (WriteSequence, OpStep<()>)) -> Vec<(u16, u8, Vec<u8>)> {
    let (mut seq, mut step) = started;
    let mut out = Vec::new();
    loop {
        match step {
            OpStep::Done(r) => {
                assert!(r.is_ok());
                return out;
            }
            ref s => {
                out.push(write_of(s));
                step = seq.on_written(Ok(()));
            }
        }
    }
}

#[test]
fn configure_tpdo_writes_in_order() {
    let comm = PdoCommParameter { valid: true, rtr_disabled: false, cob_id: CanId::standard(0x181), transmission_type: 1 };
    let cfg = PdoConfig { comm, mappings: vec![PdoMapping { index: 0x2000, sub: 1, size: 32 }] };
    let writes = all_writes(client().configure_tpdo(0, &cfg));
    assert_eq!(
        writes,
        vec![
            (0x1800, 2, vec![1]),
            (0x1800, 1, vec![0x81, 0x01, 0, 0x80]),
            (0x1A00, 0, vec![0]),
            (0x1A00, 1, vec![0x20, 0x01, 0x00, 0x20]),
            (0x1A00, 0, vec![1]),
            (0x1800, 2, vec![1]),
            (0x1800, 1, vec![0x81, 0x01, 0, 0]),
        ]
    );
}

#[test]
fn configure_rpdo_disabled_stops_after_the_count() {
    let comm = PdoCommParameter { valid: false, rtr_disabled: true, cob_id: CanId::standard(0x201), transmission_type: 255 };
    let cfg = PdoConfig { comm, mappings: Vec::new() };
    let writes = all_writes(client().configure_rpdo(2, &cfg));
    assert_eq!(
        writes,
        vec![(0x1402, 2, vec![255]), (0x1402, 1, vec![0x01, 0x02, 0, 0xC0]), (0x1602, 0, vec![0]), (0x1602, 0, vec![0])]
    );
}

#[test]
fn write_sequence_stops_at_the_first_error() {
    let comm = PdoCommParameter { valid: true, rtr_disabled: false, cob_id: CanId::standard(0x181), transmission_type: 1 };
    let cfg = PdoConfig { comm, mappings: Vec::new() };
    let (mut seq, step) = client().configure_tpdo(0, &cfg);
    assert_eq!(write_of(&step).0, 0x1800);
    let next = seq.on_written(Ok(()));
    assert_eq!(write_of(&next), (0x1800, 1, vec![0x81, 0x01, 0, 0x80]));
    match seq.on_written(Err(SdoClientError::NoResponse)) {
        OpStep::Done(Err(SdoClientError::NoResponse)) => {}
        other => panic!("expected the error, got {other:?}"),
    }
}

#[test]
fn single_writes_of_the_client() {
    let c = client();
    assert_eq!(all_writes(c.save_objects()), vec![(0x1010, 1, vec![0x65, 0x76, 0x61, 0x73])]);
    assert_eq!(all_writes(c.write_bool(0x2000, 3, true)), vec![(0x2000, 3, vec![1])]);
    assert_eq!(all_writes(c.write_bool(0x2000, 3, false)), vec![(0x2000, 3, vec![0])]);
    assert_eq!(
        all_writes(c.set_tpdo_cob_id(1, CanId::extended(0x1234), false, true)),
        vec![(0x1801, 1, vec![0x34, 0x12, 0x00, 0xE0])]
    );
    assert_eq!(all_writes(c.set_rpdo_cob_id(0, CanId::standard(0x201), true, false)), vec![(0x1400, 1, vec![0x01, 0x02, 0, 0])]);
    assert_eq!(
        all_writes(c.write_time_of_day(0x2001, 0, TimeOfDay::new(2, 1000))),
        vec![(0x2001, 0, vec![0xE8, 0x03, 0, 0, 2, 0])]
    );
    assert_eq!(
        all_writes(c.write_time_difference(0x2002, 1, TimeDifference::new(1, 5))),
        vec![(0x2002, 1, vec![5, 0, 0, 0, 1, 0])]
    );
}

#[test]
fn read_identity_reads_four_words() {
    let (mut op, step): (IdentityRead, _) = client().read_identity();
    assert_eq!(read_of(&step), (0x1018, 1));
    let s = op.on_read(Ok(vec![1, 0, 0, 0]));
    assert_eq!(read_of(&s), (0x1018, 2));
    let s = op.on_read(Ok(vec![2, 0, 0, 0]));
    assert_eq!(read_of(&s), (0x1018, 3));
    let s = op.on_read(Ok(vec![3, 0, 0, 0]));
    assert_eq!(read_of(&s), (0x1018, 4));
    match op.on_read(Ok(vec![4, 1, 0, 0])) {
        OpStep::Done(Ok(id)) => assert_eq!(id, LssIdentity::new(1, 2, 3, 0x104)),
        other => panic!("expected the identity, got {other:?}"),
    }
}

#[test]
fn read_identity_fails_on_a_short_word() {
    let (mut op, _) = client().read_identity();
    match op.on_read(Ok(vec![1, 0])) {
        OpStep::Done(Err(SdoClientError::UnexpectedSize)) => {}
        other => panic!("expected a size error, got {other:?}"),
    }
    let (mut op, _) = client().read_identity();
    match op.on_read(Err(SdoClientError::NoResponse)) {
        OpStep::Done(Err(SdoClientError::NoResponse)) => {}
        other => panic!("expected the error, got {other:?}"),
    }
}

#[test]
fn read_tpdo_config_reads_comm_then_mappings() {
    let (mut op, step): (PdoConfigRead, _) = client().read_tpdo_config(1);
    assert_eq!(read_of(&step), (0x1801, 1));
    let s = op.on_read(Ok(vec![0x81, 0x01, 0, 0x40]));
    assert_eq!(read_of(&s), (0x1801, 2));
    let s = op.on_read(Ok(vec![254]));
    assert_eq!(read_of(&s), (0x1A01, 0));
    let s = op.on_read(Ok(vec![2]));
    assert_eq!(read_of(&s), (0x1A01, 1));
    let s = op.on_read(Ok(vec![0x08, 0x01, 0x00, 0x20]));
    assert_eq!(read_of(&s), (0x1A01, 2));
    match op.on_read(Ok(vec![0x10, 0x00, 0x01, 0x20])) {
        OpStep::Done(Ok(cfg)) => {
            assert_eq!(
                cfg.comm,
                PdoCommParameter { valid: true, rtr_disabled: true, cob_id: CanId::standard(0x181), transmission_type: 254 }
            );
            assert_eq!(
                cfg.mappings,
                vec![PdoMapping { index: 0x2000, sub: 1, size: 8 }, PdoMapping { index: 0x2001, sub: 0, size: 16 }]
            );
        }
        other => panic!("expected the configuration, got {other:?}"),
    }
}

#[test]
fn read_rpdo_config_with_no_mappings_and_size_errors() {
    let (mut op, step) = client().read_rpdo_config(0);
    assert_eq!(read_of(&step), (0x1400, 1));
    op.on_read(Ok(vec![0x01, 0x02, 0, 0x80]));
    op.on_read(Ok(vec![255]));
    match op.on_read(Ok(vec![0])) {
        OpStep::Done(Ok(cfg)) => {
            assert!(!cfg.comm.valid);
            assert_eq!(cfg.comm.cob_id, CanId::standard(0x201));
            assert!(cfg.mappings.is_empty());
        }
        other => panic!("expected the configuration, got {other:?}"),
    }
    let (mut op, _) = client().read_rpdo_config(0);
    match op.on_read(Ok(vec![1, 2, 3])) {
        OpStep::Done(Err(SdoClientError::UnexpectedSize)) => {}
        other => panic!("expected a size error, got {other:?}"),
    }
}

#[test]
fn single_reads_decode_what_was_read() {
    let c = client();
    let (mut op, step) = c.read_bool(0x2000, 1);
    assert_eq!(read_of(&step), (0x2000, 1));
    assert!(matches!(op.on_read(Ok(vec![2])), OpStep::Done(Ok(true))));
    assert!(matches!(op.on_read(Ok(vec![0])), OpStep::Done(Ok(false))));
    assert!(matches!(op.on_read(Ok(vec![1, 1])), OpStep::Done(Err(SdoClientError::UnexpectedSize))));
    let (mut op, step) = c.read_time_of_day(0x2001, 0);
    assert_eq!(read_of(&step), (0x2001, 0));
    match op.on_read(Ok(vec![0xE8, 0x03, 0, 0, 2, 0])) {
        OpStep::Done(Ok(t)) => assert_eq!(t, TimeOfDay::new(2, 1000)),
        other => panic!("expected a time, got {other:?}"),
    }
    let (mut op, _) = c.read_time_difference(0x2002, 0);
    match op.on_read(Ok(vec![5, 0, 0, 0, 1, 0])) {
        OpStep::Done(Ok(t)) => assert_eq!(t, TimeDifference::new(1, 5)),
        other => panic!("expected a time, got {other:?}"),
    }
    assert!(matches!(op.on_read(Ok(vec![5])), OpStep::Done(Err(SdoClientError::UnexpectedSize))));
    let (mut op, step) = c.read_device_name();
    assert_eq!(read_of(&step), (0x1008, 0));
    match op.on_read(Ok(b"io-board".to_vec())) {
        OpStep::Done(Ok(t)) => assert_eq!(t, "io-board"),
        other => panic!("expected text, got {other:?}"),
    }
    match op.on_read(Ok(vec![0x61, 0xFF])) {
        OpStep::Done(Ok(t)) => assert_eq!(t, "a\u{FFFD}"),
        other => panic!("expected text, got {other:?}"),
    }
    assert_eq!(read_of(&c.read_software_version().1), (0x100A, 0));
    assert_eq!(read_of(&c.read_hardware_version().1), (0x1009, 0));
    assert_eq!(read_of(&c.read_visible_string(0x3000, 4).1), (0x3000, 4));
    let (mut op, step) = c.read_utf8(0x3001, 2);
    assert_eq!(read_of(&step), (0x3001, 2));
    assert!(matches!(op.on_read(Err(SdoClientError::NoResponse)), OpStep::Done(Err(SdoClientError::NoResponse))));
}

#[test]
fn configured_pdo_reads_back_as_configured() {
    let comm = PdoCommParameter { valid: true, rtr_disabled: true, cob_id: CanId::extended(0x1234), transmission_type: 5 };
    let mappings = vec![
        PdoMapping { index: 0x2000, sub: 1, size: 8 },
        PdoMapping { index: 0x2001, sub: 2, size: 16 },
        PdoMapping { index: 0x2002, sub: 0, size: 32 },
    ];
    let cfg = PdoConfig { comm, mappings: mappings.clone() };
    let mut objects: HashMap<(u16, u8), Vec<u8>> = HashMap::new();
    objects.insert((0x1A02, 1), vec![9, 9, 9, 9]);
    let c = client();
    let (mut seq, mut step) = c.configure_tpdo(2, &cfg);
    loop {
        match step {
            OpStep::Access(ObjectAccess::Write { index, sub, data }) => {
                objects.insert((index, sub), data);
                step = seq.on_written(Ok(()));
            }
            OpStep::Done(r) => {
                assert!(r.is_ok());
                break;
            }
            other => panic!("expected a write, got {other:?}"),
        }
    }
    let (mut read, mut step) = c.read_tpdo_config(2);
    let back = loop {
        match step {
            OpStep::Access(ObjectAccess::Read { index, sub }) => {
                step = read.on_read(Ok(objects[&(index, sub)].clone()));
            }
            OpStep::Done(r) => break r.unwrap(),
            other => panic!("expected a read, got {other:?}"),
        }
    };
    assert_eq!(back.comm, comm);
    assert_eq!(back.mappings, mappings);
}
