use ecal_types::descriptor::DataTypeInfo;
use ecal_types::envelope::envelope;
use ecal_types::protobuf::{IsProtobufType, ProtobufMessage};
use prost::bytes::{Buf, BufMut};
use prost::encoding::{skip_field, string, uint32, DecodeContext, WireType};
use prost::{DecodeError, Message};

#[derive(Debug, Clone, PartialEq, Default)]
struct Person {
    id: u32,
    name: String,
}

impl Message for Person {
    fn encode_raw(&self, buf: &mut impl BufMut) {
        if self.id != 0 {
            uint32::encode(1, &self.id, buf);
        }
        if !self.name.is_empty() {
            string::encode(2, &self.name, buf);
        }
    }

    fn merge_field(
        &mut self,
        tag: u32,
        wire_type: WireType,
        buf: &mut impl Buf,
        ctx: DecodeContext,
    ) -> Result<(), DecodeError> {
        match tag {
            1 => uint32::merge(wire_type, &mut self.id, buf, ctx),
            2 => string::merge(wire_type, &mut self.name, buf, ctx),
            _ => skip_field(wire_type, tag, buf, ctx),
        }
    }

    fn encoded_len(&self) -> usize {
        let mut n = 0;
        if self.id != 0 {
            n += uint32::encoded_len(1, &self.id);
        }
        if !self.name.is_empty() {
            n += string::encoded_len(2, &self.name);
        }
        n
    }

    fn clear(&mut self) {
        self.id = 0;
        self.name.clear();
    }
}

impl IsProtobufType for Person {}

fn max() -> Person {
    Person { id: 1, name: "Max".to_string() }
}

#[test]
fn protobuf_person_round_trip() {
    let d = ProtobufMessage::<Person>::datatype("pb.People.Person");
    assert_eq!(d.encoding, "proto");
    assert_eq!(d.message_type, "pb.People.Person");
    assert!(d.descriptor.is_empty());
    let sent = ProtobufMessage::new(max());
    let wire = sent.to_bytes();
    assert_eq!(wire, vec![0x08, 0x01, 0x12, 0x03, b'M', b'a', b'x']);
    let received = ProtobufMessage::<Person>::from_bytes(&wire, &d).unwrap();
    assert_eq!(*received.data, max());
}

#[test]
fn protobuf_default_value_encodes_empty() {
    let wire = ProtobufMessage::new(Person::default()).to_bytes();
    assert!(wire.is_empty());
    let d = ProtobufMessage::<Person>::datatype("Person");
    let back = ProtobufMessage::<Person>::from_bytes(&wire, &d).unwrap();
    assert_eq!(*back.data, Person::default());
}

#[test]
fn protobuf_malformed_bytes_give_none() {
    let d = ProtobufMessage::<Person>::datatype("Person");
    assert!(ProtobufMessage::<Person>::from_bytes(&[0x12, 0x05, b'a'], &d).is_none());
}

#[test]
fn protobuf_other_encoding_gives_none() {
    let wire = ProtobufMessage::new(max()).to_bytes();
    let json = DataTypeInfo::new("json", "Person");
    assert!(ProtobufMessage::<Person>::from_bytes(&wire, &json).is_none());
}

#[test]
fn protobuf_publish_and_receive_envelope() {
    let publisher_d = ProtobufMessage::<Person>::datatype("pb.People.Person");
    let wire = ProtobufMessage::new(max()).to_bytes();
    let decoded = ProtobufMessage::<Person>::from_bytes(&wire, &publisher_d);
    let e = envelope("person", &publisher_d, 1000, 7, decoded).unwrap();
    assert_eq!(e.topic_name, "person");
    assert_eq!(e.encoding, "proto");
    assert_eq!(e.message_type, "pb.People.Person");
    assert_eq!(e.timestamp, 1000);
    assert_eq!(e.clock, 7);
    assert_eq!(*e.payload.data, max());
}

#[test]
fn undecodable_message_gives_no_envelope() {
    let d = ProtobufMessage::<Person>::datatype("Person");
    let decoded = ProtobufMessage::<Person>::from_bytes(&[0xff], &d);
    assert!(envelope("person", &d, 0, 0, decoded).is_none());
}
