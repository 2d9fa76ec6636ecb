use bytes::Bytes;
use qi::address::{Address, IpAddr, SocketAddr, Ssl};
use qi::info_record::InfoRecord;
use qi::node;
use qi::object;
use qi::os::MachineId;
use qi::service::{info_type, Id, Info, ObjectUidAsStr};
use qi::formats::{IntoFormat, ReflectError};
use qi::target::Target;
use qi::target_text::{network_texts, read_targets, split_target, target_texts, Prefix};
use qi::value::{Expected, FromValue, FromValueError, IntoValue, Kind, Type, Value, ValueType};
use qi::wire;

const UID: [u8; 20] = [
    0xfd, 0xeb, 0xc1, 0x2e, 0xcb, 0xea, 0x6b, 0x58, 0xcc, 0x42, 0x20, 0xb7, 0x33, 0x3d, 0xc4, 0xe1,
    0x0d, 0x8a, 0xd6, 0x16,
];

const INFO: [u8; 172] = [
    0x0a, 0x00, 0x00, 0x00, 0x43, 0x61, 0x6c, 0x63, 0x75, 0x6c, 0x61, 0x74, 0x6f, 0x72, 0x02, 0x00,
    0x00, 0x00, 0x24, 0x00, 0x00, 0x00, 0x39, 0x61, 0x36, 0x35, 0x62, 0x35, 0x36, 0x65, 0x2d, 0x63,
    0x33, 0x64, 0x33, 0x2d, 0x34, 0x34, 0x38, 0x35, 0x2d, 0x38, 0x39, 0x32, 0x34, 0x2d, 0x36, 0x36,
    0x31, 0x62, 0x30, 0x33, 0x36, 0x32, 0x30, 0x32, 0x62, 0x33, 0x46, 0x31, 0x34, 0x00, 0x02, 0x00,
    0x00, 0x00, 0x0d, 0x00, 0x00, 0x00, 0x71, 0x69, 0x3a, 0x43, 0x61, 0x6c, 0x63, 0x75, 0x6c, 0x61,
    0x74, 0x6f, 0x72, 0x15, 0x00, 0x00, 0x00, 0x74, 0x63, 0x70, 0x3a, 0x2f, 0x2f, 0x31, 0x32, 0x37,
    0x2e, 0x30, 0x2e, 0x30, 0x2e, 0x31, 0x3a, 0x34, 0x31, 0x36, 0x38, 0x31, 0x24, 0x00, 0x00, 0x00,
    0x33, 0x36, 0x31, 0x65, 0x63, 0x65, 0x63, 0x34, 0x2d, 0x30, 0x30, 0x66, 0x37, 0x2d, 0x34, 0x63,
    0x39, 0x34, 0x2d, 0x61, 0x36, 0x65, 0x32, 0x2d, 0x64, 0x39, 0x31, 0x65, 0x32, 0x38, 0x63, 0x35,
    0x61, 0x30, 0x36, 0x63, 0x14, 0x00, 0x00, 0x00, 0xfd, 0xeb, 0xc1, 0x2e, 0xcb, 0xea, 0x6b, 0x58,
    0xcc, 0x42, 0x20, 0xb7, 0x33, 0x3d, 0xc4, 0xe1, 0x0d, 0x8a, 0xd6, 0x16,
];

fn local_endpoint() -> Address {
    Address::Tcp {
        address: SocketAddr::new(IpAddr::V4(0x7f00_0001), 41681),
        ssl: None,
    }
}

fn network_address(text: &str) -> Option<SocketAddr> {
    let (ip, port) = text.split_once(':')?;
    let bytes: Vec<u8> = ip.split('.').map(|byte| byte.parse().ok()).collect::<Option<_>>()?;
    let ip = u32::from_be_bytes(bytes.try_into().ok()?);
    Some(SocketAddr::new(IpAddr::V4(ip), port.parse().ok()?))
}

fn networks(texts: &Vec<Vec<u8>>) -> Vec<Option<SocketAddr>> {
    network_texts(texts)
        .iter()
        .map(|text| text.as_ref().and_then(|text| network_address(text)))
        .collect()
}

fn calculator_info() -> Info {
    Info {
        name: "Calculator".to_owned(),
        id: Id(2),
        machine_id: MachineId::parse("9a65b56e-c3d3-4485-8924-661b036202b3").unwrap(),
        process_id: 3420486,
        endpoints: vec![Target::service("Calculator"), Target::from(local_endpoint())],
        node_uid: node::Uid::from_string("361ecec4-00f7-4c94-a6e2-d91e28c5a06c".to_owned()),
        object_uid: ObjectUidAsStr(object::Uid::from_bytes(UID)),
    }
}

fn address_texts() -> Vec<String> {
    vec![String::new(), "127.0.0.1:41681".to_owned()]
}

fn addresses() -> Vec<Option<SocketAddr>> {
    vec![None, Some(SocketAddr::new(IpAddr::V4(0x7f00_0001), 41681))]
}

#[test]
fn service_info_from_format_value() {
    let value_in = Bytes::copy_from_slice(&INFO);
    let networks = networks(&InfoRecord::read(&INFO).unwrap().endpoints);
    let service_info = Info::to_reflect_value(&value_in, &networks).unwrap();
    assert_eq!(service_info, calculator_info());
}

#[test]
fn targets_are_read_out_of_their_texts() {
    let network = SocketAddr::new(IpAddr::V4(0x7f00_0001), 41681);
    let endpoint = |ssl| Target::from(Address::Tcp { address: network, ssl });
    for (text, target) in [
        ("qi:Calculator", Some(Target::service("Calculator"))),
        ("qi:", Some(Target::service(""))),
        ("tcp://127.0.0.1:41681", Some(endpoint(None))),
        ("tcps://127.0.0.1:41681", Some(endpoint(Some(Ssl::Simple)))),
        ("tcpsm://127.0.0.1:41681", Some(endpoint(Some(Ssl::Mutual)))),
        ("tcp://127.0.0.1", None),
        ("udp://127.0.0.1:41681", None),
        ("tcp:", None),
        ("", None),
    ] {
        let texts = vec![text.as_bytes().to_vec()];
        let read = read_targets(&texts, &networks(&texts));
        assert_eq!(read, target.clone().map(|target| vec![target]));
        if let Some(target) = target {
            assert_eq!(target.to_text("127.0.0.1:41681"), text);
        }
    }
    let (prefix, rest) = split_target("tcps://x").unwrap();
    assert_eq!(prefix, Prefix::Endpoint(Some(Ssl::Simple)));
    assert_eq!(rest, "x");
}

#[test]
fn lists_of_targets_are_read_back() {
    let targets = calculator_info().endpoints;
    let texts = target_texts(&targets, &address_texts());
    assert_eq!(texts, vec!["qi:Calculator", "tcp://127.0.0.1:41681"]);
    let raw: Vec<Vec<u8>> = texts.into_iter().map(String::into_bytes).collect();
    assert_eq!(network_texts(&raw), vec![None, Some("127.0.0.1:41681".to_owned())]);
    assert_eq!(read_targets(&raw, &addresses()), Some(targets));
    assert_eq!(read_targets(&raw, &vec![]), None);
    assert_eq!(read_targets(&vec![vec![0xff]], &addresses()), None);
    assert_eq!(network_texts(&vec![vec![0xff]]), vec![None]);
    assert_eq!(read_targets(&vec![], &vec![]), Some(vec![]));
    assert_eq!(target_texts(&calculator_info().endpoints, &vec![])[1], "tcp://");
}

#[test]
fn service_info_is_converted_back() {
    let record = || calculator_info().to_record(&address_texts());
    let value = record().into_value();
    assert_eq!(InfoRecord::from_value(value.copy()), Ok(record()));
    let back = InfoRecord::from_value(value.copy()).unwrap();
    assert_eq!(Info::from_record(back, &addresses()), Ok(calculator_info()));
    let fields = || match value.copy() {
        Value::Tuple(fields) => fields,
        other => panic!("not a tuple: {:?}", other),
    };
    let refused = |expected: Kind, actual: ValueType| {
        Err(FromValueError::TypeMismatch { expected: Expected::Kind(expected), actual })
    };
    assert_eq!(InfoRecord::from_value(Value::Unit), refused(Kind::Tuple, ValueType::Unit));
    let mut changed = fields();
    changed.pop();
    assert_eq!(
        InfoRecord::from_value(Value::Tuple(changed)),
        Err(FromValueError::Length { wanted: 7, found: 6 })
    );
    for (i, expected) in [
        (0, Kind::String),
        (1, Kind::UInt32),
        (2, Kind::String),
        (3, Kind::UInt32),
        (4, Kind::List),
        (5, Kind::String),
        (6, Kind::String),
    ] {
        let mut changed = fields();
        changed[i] = Value::Bool(true);
        assert_eq!(
            InfoRecord::from_value(Value::Tuple(changed)),
            refused(expected, ValueType::Bool)
        );
    }
    let mut changed = fields();
    changed[4] = Value::List(vec![Value::String(vec![]), Value::UInt8(1), Value::Unit]);
    assert_eq!(
        InfoRecord::from_value(Value::Tuple(changed)),
        refused(Kind::String, ValueType::UInt8)
    );
}

#[test]
fn default_info_tells_nothing() {
    let info = Info::default();
    assert_eq!(info, Info::unregistered(
        String::new(),
        vec![],
        node::Uid::default(),
        object::Uid::default(),
        MachineId(0),
        0,
    ));
    assert!(info < calculator_info());
}

#[test]
fn service_info_is_written_as_it_is_read() {
    let record = calculator_info().to_record(&address_texts());
    assert_eq!(record.write().unwrap(), INFO.to_vec());
    let read = InfoRecord::read(&INFO).unwrap();
    assert_eq!(read, record);
}

#[test]
fn service_info_travels_in_payloads() {
    let payload = calculator_info().into_format(&address_texts()).unwrap();
    assert_eq!(payload, &INFO[..]);
    assert_eq!(Info::to_reflect_value(&payload, &addresses()), Ok(calculator_info()));
    assert_eq!(
        Info::to_reflect_value(&payload, &vec![]),
        Err(ReflectError::Conversion(FromValueError::NotATarget))
    );
    assert_eq!(
        Info::to_reflect_value(&payload.slice(..20), &vec![]),
        Err(ReflectError::Format(wire::Error::UnexpectedEnd))
    );
}

#[test]
fn lists_of_service_infos_are_read() {
    let mut bytes = vec![2, 0, 0, 0];
    bytes.extend_from_slice(&INFO);
    bytes.extend_from_slice(&INFO);
    let record = || InfoRecord::read(&INFO).unwrap();
    assert_eq!(InfoRecord::read_list(&bytes), Ok(vec![record(), record()]));
    assert_eq!(InfoRecord::read_list(&bytes[..300]), Err(wire::Error::UnexpectedEnd));
    assert_eq!(InfoRecord::read_list(&[0, 0, 0, 0]), Ok(vec![]));
}

#[test]
fn what_follows_a_service_info_is_not_looked_at() {
    let mut bytes = INFO.to_vec();
    bytes.push(0xff);
    assert_eq!(InfoRecord::read(&bytes), InfoRecord::read(&INFO));
}

#[test]
fn cut_service_info_is_refused() {
    for length in 0..INFO.len() {
        assert_eq!(InfoRecord::read(&INFO[..length]), Err(wire::Error::UnexpectedEnd));
    }
}

#[test]
fn object_uid_from_to_format() {
    let value_in = &[
        0x14, 0x00, 0x00, 0x00, 0xfd, 0xeb, 0xc1, 0x2e, 0xcb, 0xea, 0x6b, 0x58, 0xcc, 0x42, 0x20,
        0xb7, 0x33, 0x3d, 0xc4, 0xe1, 0x0d, 0x8a, 0xd6, 0x16,
    ][..];
    let object_uid =
        ObjectUidAsStr::to_reflect_value(&Bytes::copy_from_slice(value_in)).unwrap();
    assert_eq!(
        object_uid.0.bytes(),
        &[
            0xfd, 0xeb, 0xc1, 0x2e, 0xcb, 0xea, 0x6b, 0x58, 0xcc, 0x42, 0x20, 0xb7, 0x33, 0x3d,
            0xc4, 0xe1, 0x0d, 0x8a, 0xd6, 0x16
        ][..]
    );
    let value_out = object_uid.into_format().unwrap();
    assert_eq!(value_out, value_in);
}

#[test]
fn object_uids_are_strings_of_their_bytes() {
    let uid = object::Uid::from_bytes(UID);
    let object_uid = ObjectUidAsStr::from(uid);
    assert_eq!(object::Uid::from(object_uid), uid);
    assert_eq!(object_uid.into_format_args(), object_uid.into_format_return_value());
    assert_eq!(ObjectUidAsStr::default().0, object::Uid::zero());
}

#[test]
fn object_uid_of_another_length_is_refused() {
    let payload = Bytes::from_static(&[0x02, 0, 0, 0, 0xfd, 0xeb]);
    assert_eq!(
        ObjectUidAsStr::to_reflect_value(&payload),
        Err(ReflectError::Conversion(FromValueError::Length { wanted: 20, found: 2 }))
    );
    let payload = Bytes::from_static(&[0x14, 0, 0, 0, 0xfd]);
    assert_eq!(
        ObjectUidAsStr::to_reflect_value(&payload),
        Err(ReflectError::Format(wire::Error::UnexpectedEnd))
    );
}

#[test]
fn object_uid_is_a_string_value() {
    let uid = ObjectUidAsStr(object::Uid::from_bytes(UID));
    assert_eq!(uid.to_value(), Value::String(UID.to_vec()));
    assert_eq!(ObjectUidAsStr::from_value(Value::String(UID.to_vec())), Ok(uid));
    assert_eq!(
        ObjectUidAsStr::from_value(Value::Int32(12)),
        Err(FromValueError::TypeMismatch { expected: Expected::ObjectUid, actual: ValueType::Int32 })
    );
}

#[test]
fn service_info_that_says_nothing_is_refused() {
    let texts = address_texts();
    let mut record = calculator_info().to_record(&texts);
    record.name = vec![0xff];
    assert_eq!(Info::from_record(record, &addresses()), Err(FromValueError::NotText));
    let mut record = calculator_info().to_record(&texts);
    record.machine_id = b"here".to_vec();
    assert_eq!(Info::from_record(record, &addresses()), Err(FromValueError::NotAMachineId));
    let record = calculator_info().to_record(&texts);
    assert_eq!(Info::from_record(record, &vec![]), Err(FromValueError::NotATarget));
    let mut record = calculator_info().to_record(&texts);
    record.session_id = vec![0xc0];
    assert_eq!(Info::from_record(record, &addresses()), Err(FromValueError::NotText));
    let mut record = calculator_info().to_record(&texts);
    record.object_uid = vec![1, 2, 3];
    assert_eq!(
        Info::from_record(record, &addresses()),
        Err(FromValueError::Length { wanted: 20, found: 3 })
    );
}

#[test]
fn service_info_as_text() {
    assert_eq!(
        calculator_info().to_text(&address_texts(), &"uid".to_owned()),
        "Calculator(2, machine=9a65b56e-c3d3-4485-8924-661b036202b3, process=3420486, \
         endpoints=[qi:Calculatortcp://127.0.0.1:41681], \
         node=361ecec4-00f7-4c94-a6e2-d91e28c5a06c, object=uid)"
    );
}

#[test]
fn service_info_that_no_directory_knows() {
    let info = Info::unregistered(
        "Calculator".to_owned(),
        vec![Target::service("Calculator")],
        node::Uid::from_string("node".to_owned()),
        object::Uid::from_bytes(UID),
        MachineId(7),
        12,
    );
    assert_eq!(info.id(), Id(0));
    assert_eq!(info.machine_id(), MachineId(7));
    assert_eq!(info.process_id(), 12);
    assert_eq!(info.endpoints(), &[Target::service("Calculator")][..]);
    assert_eq!(info.node_uid(), node::Uid::from_string("node".to_owned()));
    assert_eq!(info.object_uid(), object::Uid::from_bytes(UID));
}

#[test]
fn type_of_a_service_info() {
    match info_type() {
        Type::Struct { name, fields } => {
            assert_eq!(name, "Info");
            let names: Vec<&str> = fields.iter().map(|field| field.name.as_str()).collect();
            assert_eq!(
                names,
                vec![
                    "name",
                    "serviceId",
                    "machineId",
                    "processId",
                    "endpoints",
                    "sessionId",
                    "objectUid"
                ]
            );
            assert_eq!(fields[1].ty, Type::UInt32);
            assert_eq!(fields[4].ty, Type::List(Box::new(Type::String)));
        }
        other => panic!("not a structure: {:?}", other),
    }
}

#[test]
fn machine_ids_are_read_and_written() {
    let text = "9a65b56e-c3d3-4485-8924-661b036202b3";
    let id = MachineId::parse(text).unwrap();
    assert_eq!(id, MachineId(0x9a65b56e_c3d3_4485_8924_661b036202b3));
    assert_eq!(id.to_text(), text);
    assert_eq!(MachineId::parse("9a65b56e"), None);
    assert_eq!(MachineId(0).to_text(), "00000000-0000-0000-0000-000000000000");
    assert_eq!(MachineId::from_value(id.into_value()), Ok(id));
    assert_eq!(
        MachineId::from_value(Value::String(b"here".to_vec())),
        Err(FromValueError::NotAMachineId)
    );
    assert_eq!(MachineId::from_value(Value::String(vec![0xff])), Err(FromValueError::NotText));
}

#[test]
fn random_node_uids_are_marked_as_such() {
    let first = node::Uid::new();
    let second = node::Uid::new();
    assert_ne!(first, second);
    assert_eq!(first.0.len(), 36);
    assert_eq!(first.0.as_bytes()[14], b'4');
    assert!(b"89ab".contains(&first.0.as_bytes()[19]));
}
