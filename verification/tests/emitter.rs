use fbx_emitter::config::EmitterConfig;
use fbx_emitter::emitter::Emitter;
use fbx_emitter::error::Error;
use fbx_emitter::event::{FbxEvent, FbxFormatType, PropertyValue};

fn lenient() -> EmitterConfig {
    EmitterConfig { ignore_minor_errors: true }
}

#[test]
fn default_config_is_strict() {
    assert_eq!(EmitterConfig::default(), EmitterConfig { ignore_minor_errors: false });
    assert_eq!(EmitterConfig::new(), EmitterConfig::default());
}

#[test]
fn structural_event_before_start_fails() {
    for event in [
        FbxEvent::EndFbx,
        FbxEvent::StartNode { name: "Model".to_string(), properties: vec![] },
        FbxEvent::EndNode,
        FbxEvent::Comment("hello".to_string()),
    ] {
        let mut emitter = Emitter::new(EmitterConfig::default());
        let mut sink: Vec<u8> = Vec::new();
        assert_eq!(emitter.write(&mut sink, event), Err(Error::FbxNotStarted));
        assert!(sink.is_empty());
    }
}

#[test]
fn binary_start_writes_header() {
    let mut emitter = Emitter::new(EmitterConfig::default());
    let mut sink: Vec<u8> = Vec::new();
    let result = emitter.write(&mut sink, FbxEvent::StartFbx(FbxFormatType::Binary(7400)));
    assert_eq!(result, Ok(()));
    assert_eq!(sink, vec![0x46, 0x42, 0x58, 0x42, 0xe8, 0x1c, 0x00, 0x00]);
}

#[test]
fn ascii_start_writes_header() {
    let mut emitter = Emitter::new(EmitterConfig::default());
    let mut sink: Vec<u8> = Vec::new();
    let result = emitter.write(&mut sink, FbxEvent::StartFbx(FbxFormatType::Ascii));
    assert_eq!(result, Ok(()));
    assert_eq!(sink, b"; FBX ASCII\n");
}

#[test]
fn second_start_fails_and_poisons() {
    // Open a binary document, write one node start, then try to start again:
    // the second start fails, and the failure is permanent even for an event
    // that would otherwise have been legal.
    let mut emitter = Emitter::new(EmitterConfig::default());
    let mut sink: Vec<u8> = Vec::new();
    assert_eq!(
        emitter.write(&mut sink, FbxEvent::StartFbx(FbxFormatType::Binary(7400))),
        Ok(())
    );
    assert_eq!(
        emitter.write(
            &mut sink,
            FbxEvent::StartNode { name: "Model".to_string(), properties: vec![] }
        ),
        Ok(())
    );
    let len_before = sink.len();
    assert_eq!(
        emitter.write(&mut sink, FbxEvent::StartFbx(FbxFormatType::Binary(7400))),
        Err(Error::FbxAlreadyStarted)
    );
    assert_eq!(
        emitter.write(&mut sink, FbxEvent::EndNode),
        Err(Error::FbxAlreadyStarted)
    );
    assert_eq!(sink.len(), len_before);
}

#[test]
fn ascii_structural_event_is_unimplemented() {
    let mut emitter = Emitter::new(EmitterConfig::default());
    let mut sink: Vec<u8> = Vec::new();
    assert_eq!(
        emitter.write(&mut sink, FbxEvent::StartFbx(FbxFormatType::Ascii)),
        Ok(())
    );
    let result = emitter.write(
        &mut sink,
        FbxEvent::StartNode { name: "Model".to_string(), properties: vec![] },
    );
    assert_eq!(
        result,
        Err(Error::Unimplemented("Ascii FBX emitter is unimplemented yet".to_string()))
    );
}

#[test]
fn ascii_second_start_fails() {
    let mut emitter = Emitter::new(EmitterConfig::default());
    let mut sink: Vec<u8> = Vec::new();
    assert_eq!(
        emitter.write(&mut sink, FbxEvent::StartFbx(FbxFormatType::Ascii)),
        Ok(())
    );
    assert_eq!(
        emitter.write(&mut sink, FbxEvent::StartFbx(FbxFormatType::Ascii)),
        Err(Error::FbxAlreadyStarted)
    );
}

#[test]
fn comment_in_binary_dropped_when_lenient() {
    let mut emitter = Emitter::new(lenient());
    let mut sink: Vec<u8> = Vec::new();
    assert_eq!(
        emitter.write(&mut sink, FbxEvent::StartFbx(FbxFormatType::Binary(7400))),
        Ok(())
    );
    let len_before = sink.len();
    assert_eq!(
        emitter.write(&mut sink, FbxEvent::Comment("note".to_string())),
        Ok(())
    );
    assert_eq!(sink.len(), len_before);
    // The emitter is not poisoned: later legal events still succeed.
    assert_eq!(emitter.write(&mut sink, FbxEvent::EndFbx), Ok(()));
}

#[test]
fn comment_in_binary_fails_when_strict() {
    let mut emitter = Emitter::new(EmitterConfig::default());
    let mut sink: Vec<u8> = Vec::new();
    assert_eq!(
        emitter.write(&mut sink, FbxEvent::StartFbx(FbxFormatType::Binary(7400))),
        Ok(())
    );
    let len_before = sink.len();
    assert_eq!(
        emitter.write(&mut sink, FbxEvent::Comment("note".to_string())),
        Err(Error::UnwritableEvent)
    );
    assert_eq!(sink.len(), len_before);
    // Poisoned: even a legal end-of-document now returns the cached failure.
    assert_eq!(emitter.write(&mut sink, FbxEvent::EndFbx), Err(Error::UnwritableEvent));
    assert_eq!(sink.len(), len_before);
}

#[test]
fn end_node_without_open_node_fails() {
    let mut emitter = Emitter::new(EmitterConfig::default());
    let mut sink: Vec<u8> = Vec::new();
    assert_eq!(
        emitter.write(&mut sink, FbxEvent::StartFbx(FbxFormatType::Binary(7400))),
        Ok(())
    );
    assert_eq!(emitter.write(&mut sink, FbxEvent::EndNode), Err(Error::ExtraNodeEnd));
}

#[test]
fn end_fbx_with_open_node_fails() {
    let mut emitter = Emitter::new(EmitterConfig::default());
    let mut sink: Vec<u8> = Vec::new();
    assert_eq!(
        emitter.write(&mut sink, FbxEvent::StartFbx(FbxFormatType::Binary(7400))),
        Ok(())
    );
    assert_eq!(
        emitter.write(
            &mut sink,
            FbxEvent::StartNode { name: "Model".to_string(), properties: vec![] }
        ),
        Ok(())
    );
    assert_eq!(emitter.write(&mut sink, FbxEvent::EndFbx), Err(Error::UnclosedNode));
}

#[test]
fn end_node_into_foreign_sink_fails() {
    let mut emitter = Emitter::new(EmitterConfig::default());
    let mut sink: Vec<u8> = Vec::new();
    assert_eq!(
        emitter.write(&mut sink, FbxEvent::StartFbx(FbxFormatType::Binary(7400))),
        Ok(())
    );
    assert_eq!(
        emitter.write(
            &mut sink,
            FbxEvent::StartNode { name: "Model".to_string(), properties: vec![] }
        ),
        Ok(())
    );
    // Handing a different, shorter sink to the closing call cannot patch the
    // length placeholder that lives in the original sink.
    let mut other: Vec<u8> = Vec::new();
    assert_eq!(emitter.write(&mut other, FbxEvent::EndNode), Err(Error::BrokenSink));
    assert!(other.is_empty());
}

#[test]
fn whole_binary_document_bytes() {
    let mut emitter = Emitter::new(EmitterConfig::default());
    let mut sink: Vec<u8> = Vec::new();
    assert_eq!(
        emitter.write(&mut sink, FbxEvent::StartFbx(FbxFormatType::Binary(7400))),
        Ok(())
    );
    assert_eq!(
        emitter.write(
            &mut sink,
            FbxEvent::StartNode {
                name: "A".to_string(),
                properties: vec![
                    PropertyValue::Bool(true),
                    PropertyValue::I64(5),
                    PropertyValue::F64Bits(0x0102030405060708),
                    PropertyValue::Text("hi".to_string()),
                ],
            }
        ),
        Ok(())
    );
    assert_eq!(emitter.write(&mut sink, FbxEvent::EndNode), Ok(()));
    assert_eq!(emitter.write(&mut sink, FbxEvent::EndFbx), Ok(()));

    let mut expected: Vec<u8> = vec![0x46, 0x42, 0x58, 0x42, 0xe8, 0x1c, 0x00, 0x00];
    // Node record: patched content length, name length, name, property count.
    expected.extend_from_slice(&48u64.to_le_bytes());
    expected.extend_from_slice(&1u64.to_le_bytes());
    expected.push(0x41);
    expected.extend_from_slice(&4u64.to_le_bytes());
    // Bool(true)
    expected.extend_from_slice(&[1, 1]);
    // I64(5)
    expected.push(2);
    expected.extend_from_slice(&5u64.to_le_bytes());
    // F64Bits
    expected.push(3);
    expected.extend_from_slice(&0x0102030405060708u64.to_le_bytes());
    // Text("hi")
    expected.push(4);
    expected.extend_from_slice(&2u64.to_le_bytes());
    expected.extend_from_slice(b"hi");
    // Footer.
    expected.extend_from_slice(&[0x46, 0x42, 0x58, 0x45]);
    assert_eq!(sink, expected);
}

#[test]
fn nested_nodes_patch_their_own_lengths() {
    let mut emitter = Emitter::new(EmitterConfig::default());
    let mut sink: Vec<u8> = Vec::new();
    assert_eq!(
        emitter.write(&mut sink, FbxEvent::StartFbx(FbxFormatType::Binary(7400))),
        Ok(())
    );
    assert_eq!(
        emitter.write(
            &mut sink,
            FbxEvent::StartNode { name: "a".to_string(), properties: vec![] }
        ),
        Ok(())
    );
    assert_eq!(
        emitter.write(
            &mut sink,
            FbxEvent::StartNode { name: "b".to_string(), properties: vec![] }
        ),
        Ok(())
    );
    assert_eq!(emitter.write(&mut sink, FbxEvent::EndNode), Ok(()));
    assert_eq!(emitter.write(&mut sink, FbxEvent::EndNode), Ok(()));
    assert_eq!(emitter.write(&mut sink, FbxEvent::EndFbx), Ok(()));

    // Each empty node's own record is 8 + 1 + 8 = 17 bytes after its
    // placeholder; the outer node also contains the inner record.
    let mut expected: Vec<u8> = vec![0x46, 0x42, 0x58, 0x42, 0xe8, 0x1c, 0x00, 0x00];
    expected.extend_from_slice(&(17u64 + 25).to_le_bytes());
    expected.extend_from_slice(&1u64.to_le_bytes());
    expected.push(b'a');
    expected.extend_from_slice(&0u64.to_le_bytes());
    expected.extend_from_slice(&17u64.to_le_bytes());
    expected.extend_from_slice(&1u64.to_le_bytes());
    expected.push(b'b');
    expected.extend_from_slice(&0u64.to_le_bytes());
    expected.extend_from_slice(&[0x46, 0x42, 0x58, 0x45]);
    assert_eq!(sink, expected);
}

#[test]
fn float_property_round_trips_through_bits() {
    let bits = 1.5f64.to_bits();
    let mut emitter = Emitter::new(EmitterConfig::default());
    let mut sink: Vec<u8> = Vec::new();
    assert_eq!(
        emitter.write(&mut sink, FbxEvent::StartFbx(FbxFormatType::Binary(7400))),
        Ok(())
    );
    assert_eq!(
        emitter.write(
            &mut sink,
            FbxEvent::StartNode {
                name: "f".to_string(),
                properties: vec![PropertyValue::F64Bits(bits)],
            }
        ),
        Ok(())
    );
    // The last nine bytes written are the tag and the bit pattern.
    let tail = &sink[sink.len() - 9..];
    assert_eq!(tail[0], 3);
    let mut payload = [0u8; 8];
    payload.copy_from_slice(&tail[1..]);
    assert_eq!(f64::from_bits(u64::from_le_bytes(payload)), 1.5);
}
