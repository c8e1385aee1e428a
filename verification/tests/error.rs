use peat_sapient::error::SapientError;

#[test]
fn messages_spell_out_every_error() {
    let cases = vec![
        (SapientError::Io("broken pipe".into()), "I/O error: broken pipe"),
        (SapientError::Decode("bad tag".into()), "Protobuf decode error: bad tag"),
        (SapientError::Encode("no room".into()), "Protobuf encode error: no room"),
        (SapientError::ConnectionFailed("refused".into()), "Connection failed: refused"),
        (SapientError::NodeNotFound("n-1".into()), "Node n-1 not registered"),
        (
            SapientError::MappingError { kind: "location", detail: "Location.x missing".into() },
            "Message mapping error (location): Location.x missing",
        ),
        (
            SapientError::UnsupportedCoordinateSystem("unspecified coordinate system".into()),
            "Unsupported coordinate system: unspecified coordinate system",
        ),
        (
            SapientError::TaskRejected { node_id: "n-2".into(), reason: "busy".into() },
            "Task rejected by node n-2: busy",
        ),
        (
            SapientError::FrameTooLarge { size: 16_777_217, max: 16_777_216 },
            "Frame too large: 16777217 bytes exceeds maximum 16777216",
        ),
        (
            SapientError::FrameTooLarge { size: 0, max: 9 },
            "Frame too large: 0 bytes exceeds maximum 9",
        ),
    ];
    for (error, text) in cases {
        assert_eq!(error.message(), text);
    }
}
