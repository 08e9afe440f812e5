use c8y_mapper_ext::error::{
    ConversionError, CumulocityMapperError, MapperError, MessageConversionError,
};

#[test]
fn wrapped_failures_keep_their_text() {
    let io = MapperError::FromStdIo("No such file or directory (os error 2)".to_string());
    assert_eq!(io.message(), "No such file or directory (os error 2)");

    let wrapped = ConversionError::from_mapper(io);
    assert!(matches!(wrapped, ConversionError::FromMapper(MapperError::FromStdIo(_))));
    assert_eq!(wrapped.message(), "No such file or directory (os error 2)");

    let elapsed = CumulocityMapperError::FromElapsed("deadline has elapsed".to_string());
    let wrapped = ConversionError::from_cumulocity_mapper(elapsed);
    assert!(matches!(
        wrapped,
        ConversionError::FromCumulocityMapperError(CumulocityMapperError::FromElapsed(_))
    ));
    assert_eq!(wrapped.message(), "deadline has elapsed");

    assert_eq!(
        ConversionError::FromSerdeJson("EOF while parsing a value".to_string()).message(),
        "EOF while parsing a value"
    );
    assert_eq!(
        MapperError::FromMqttClient("connection closed".to_string()).message(),
        "connection closed"
    );
}

#[test]
fn conversion_failure_names_the_topic() {
    let failure = MessageConversionError::new(
        ConversionError::FromSerdeJson("expected value at line 1 column 1".to_string()),
        "te/device/main///cmd/config_snapshot",
    );
    assert_eq!(failure.topic, "te/device/main///cmd/config_snapshot");
    assert_eq!(
        failure.message(),
        "Failed to convert a message on topic 'te/device/main///cmd/config_snapshot': expected value at line 1 column 1"
    );
}

#[test]
fn conversion_failures_describe_themselves() {
    assert_eq!(ConversionError::FromOptionError.message(), "Error converting json option");
    assert_eq!(
        ConversionError::TranslatedSizeExceededThreshold {
            payload: "{\"temperature\"".to_string(),
            topic: "te/device/main///m/".to_string(),
            actual_size: 16385,
            threshold: 16184,
        }
        .message(),
        "The payload {\"temperature\" received on te/device/main///m/ after translation is 16385 greater than the threshold size of 16184."
    );
    assert_eq!(
        ConversionError::ChildDeviceNotRegistered { id: "child1".to_string() }.message(),
        "The given Child ID 'child1' is not registered with Cumulocity. To send the events to the child device, it has to be registered first."
    );
    assert_eq!(
        ConversionError::DirPathComponentError { dir: "/etc/tedge/operations".to_string() }
            .message(),
        "Failed to extract the child device name from file path : /etc/tedge/operations"
    );
    assert_eq!(
        ConversionError::UnexpectedError("boom".to_string()).message(),
        "Unexpected error: boom"
    );
    assert_eq!(
        ConversionError::AutoRegistrationDisabled("device/child1//".to_string()).message(),
        "The provided entity: device/child1// was not found and could not be auto-registered either, because it is disabled"
    );
}

#[test]
fn cumulocity_failures_describe_themselves() {
    assert_eq!(
        CumulocityMapperError::ExecuteFailed {
            error_message: "exit status 1".to_string(),
            command: "/usr/bin/restart".to_string(),
            operation_name: "c8y_Restart".to_string(),
        }
        .message(),
        "Operation execution failed: exit status 1. Command: /usr/bin/restart. Operation name: c8y_Restart"
    );
    assert_eq!(
        CumulocityMapperError::ReadDirError { dir: "/etc/tedge/operations/c8y/child1".to_string() }
            .message(),
        "Failed to read the child device operations in directory: /etc/tedge/operations/c8y/child1"
    );
    assert_eq!(
        CumulocityMapperError::JsonCustomOperationHandlerError {
            operation: "c8y_Command".to_string(),
            err_msg: "missing field".to_string(),
        }
        .message(),
        "Error occurred while preprocessing custom operation handler c8y_Command. Reason: missing field"
    );
    assert_eq!(
        CumulocityMapperError::FromIo("broken pipe".to_string()).message(),
        "broken pipe"
    );
}

#[test]
fn sizes_are_written_in_decimal() {
    let at_limits = ConversionError::TranslatedSizeExceededThreshold {
        payload: String::new(),
        topic: String::new(),
        actual_size: usize::MAX,
        threshold: 0,
    };
    assert_eq!(
        at_limits.message(),
        format!(
            "The payload  received on  after translation is {} greater than the threshold size of 0.",
            usize::MAX
        )
    );
}
