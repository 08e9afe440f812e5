use c8y_mapper_ext::capability::{ConfigMetadata, CumulocityConverter};
use c8y_mapper_ext::entity::{Entity, EntityRecord, EntityType};
use c8y_mapper_ext::error::ConversionError;
use c8y_mapper_ext::message::Message;
use c8y_mapper_ext::operation::OperationType;
use c8y_mapper_ext::status::CumulocitySupportedOperations;

fn metadata(types: &[&str]) -> Result<ConfigMetadata, ConversionError> {
    Ok(ConfigMetadata { types: types.iter().map(|t| t.to_string()).collect() })
}

fn main_device() -> EntityRecord {
    EntityRecord {
        topic_id: "device/main//".to_string(),
        external_id: "test-device".to_string(),
        entity_type: EntityType::MainDevice,
    }
}

fn child_device(name: &str) -> EntityRecord {
    EntityRecord {
        topic_id: format!("device/{name}//"),
        external_id: format!("test-device:device:{name}"),
        entity_type: EntityType::ChildDevice,
    }
}

fn pairs(messages: &[Message]) -> Vec<(String, String)> {
    messages.iter().map(|m| (m.topic.clone(), m.payload.clone())).collect()
}

fn pair(topic: &str, payload: &str) -> (String, String) {
    (topic.to_string(), payload.to_string())
}

/// The name by which the cloud knows a configuration operation.
fn capability(operation: OperationType) -> &'static str {
    CumulocityConverter::config_capability(&operation).unwrap().name()
}

#[test]
fn configuration_operations_have_their_capabilities() {
    assert_eq!(
        CumulocityConverter::config_capability(&OperationType::ConfigSnapshot),
        Some(CumulocitySupportedOperations::C8yUploadConfigFile)
    );
    assert_eq!(
        CumulocityConverter::config_capability(&OperationType::ConfigUpdate),
        Some(CumulocitySupportedOperations::C8yDownloadConfigFile)
    );
    for other in [
        OperationType::Health,
        OperationType::Custom("c8y_Command".to_string()),
        OperationType::Restart,
        OperationType::SoftwareList,
        OperationType::SoftwareUpdate,
        OperationType::LogUpload,
        OperationType::FirmwareUpdate,
    ] {
        assert_eq!(CumulocityConverter::config_capability(&other), None);
    }
}

#[test]
fn mapper_converts_config_metadata_to_supported_op_and_types_for_main_device() {
    let mut converter = CumulocityConverter::new("c8y", "operations/c8y");
    let device = main_device();

    // config_snapshot cmd metadata message
    assert_eq!(
        converter.marker_path(&device, "c8y_UploadConfigFile"),
        "operations/c8y/c8y_UploadConfigFile"
    );
    let messages = converter
        .convert_config_metadata(
            &device,
            metadata(&["typeA", "typeB", "typeC"]),
            capability(OperationType::ConfigSnapshot),
            Ok(()),
        )
        .unwrap();
    assert_eq!(
        pairs(&messages),
        vec![pair("c8y/s/us", "114,c8y_UploadConfigFile"), pair("c8y/s/us", "119,typeA,typeB,typeC")]
    );

    // config_update cmd metadata message
    assert_eq!(
        converter.marker_path(&device, "c8y_DownloadConfigFile"),
        "operations/c8y/c8y_DownloadConfigFile"
    );
    let messages = converter
        .convert_config_metadata(
            &device,
            metadata(&["typeD", "typeE", "typeF"]),
            capability(OperationType::ConfigUpdate),
            Ok(()),
        )
        .unwrap();
    assert_eq!(
        pairs(&messages),
        vec![
            pair("c8y/s/us", "114,c8y_DownloadConfigFile,c8y_UploadConfigFile"),
            pair("c8y/s/us", "119,typeD,typeE,typeF"),
        ]
    );
}

#[test]
fn mapper_converts_config_cmd_to_supported_op_and_types_for_child_device() {
    let mut converter = CumulocityConverter::new("c8y", "operations/c8y");
    let device = child_device("child1");
    let topic = "c8y/s/us/test-device:device:child1";

    assert_eq!(
        converter.marker_path(&device, "c8y_UploadConfigFile"),
        "operations/c8y/test-device:device:child1/c8y_UploadConfigFile"
    );
    let messages = converter
        .convert_config_metadata(
            &device,
            metadata(&["typeA", "typeB", "typeC"]),
            capability(OperationType::ConfigSnapshot),
            Ok(()),
        )
        .unwrap();
    assert_eq!(
        pairs(&messages),
        vec![pair(topic, "114,c8y_UploadConfigFile"), pair(topic, "119,typeA,typeB,typeC")]
    );

    // An updated list of config types does not trigger a duplicate supported ops message
    let messages = converter
        .convert_config_metadata(
            &device,
            metadata(&["typeB", "typeC", "typeD"]),
            capability(OperationType::ConfigSnapshot),
            Ok(()),
        )
        .unwrap();
    assert_eq!(pairs(&messages), vec![pair(topic, "119,typeB,typeC,typeD")]);

    assert_eq!(
        converter.marker_path(&device, "c8y_DownloadConfigFile"),
        "operations/c8y/test-device:device:child1/c8y_DownloadConfigFile"
    );
    let messages = converter
        .convert_config_metadata(
            &device,
            metadata(&["typeD", "typeE", "typeF"]),
            capability(OperationType::ConfigUpdate),
            Ok(()),
        )
        .unwrap();
    assert_eq!(
        pairs(&messages),
        vec![
            pair(topic, "114,c8y_DownloadConfigFile,c8y_UploadConfigFile"),
            pair(topic, "119,typeD,typeE,typeF"),
        ]
    );

    let messages = converter
        .convert_config_metadata(
            &device,
            metadata(&["typeB", "typeC", "typeD"]),
            capability(OperationType::ConfigUpdate),
            Ok(()),
        )
        .unwrap();
    assert_eq!(pairs(&messages), vec![pair(topic, "119,typeB,typeC,typeD")]);
}

#[test]
fn supported_types_are_listed_in_order() {
    let mut converter = CumulocityConverter::new("c8y", "operations/c8y");
    let messages = converter
        .convert_config_metadata(
            &main_device(),
            metadata(&["typeC", "typeA", "typeB", "typeA"]),
            "c8y_UploadConfigFile",
            Ok(()),
        )
        .unwrap();
    assert_eq!(messages[1].payload, "119,typeA,typeA,typeB,typeC");
}

#[test]
fn empty_list_of_types_is_announced_as_such() {
    let mut converter = CumulocityConverter::new("c8y", "operations/c8y");
    let messages = converter
        .convert_config_metadata(&main_device(), metadata(&[]), "c8y_UploadConfigFile", Ok(()))
        .unwrap();
    assert_eq!(
        pairs(&messages),
        vec![pair("c8y/s/us", "114,c8y_UploadConfigFile"), pair("c8y/s/us", "119,")]
    );
}

#[test]
fn register_operation_announces_a_pair_once() {
    let mut converter = CumulocityConverter::new("c8y", "operations/c8y");
    let device = main_device();
    assert!(!converter.is_registered("device/main//", "c8y_Restart"));

    let first = converter.register_operation(&device, "c8y_Restart", Ok(())).unwrap();
    assert_eq!(pairs(&first), vec![pair("c8y/s/us", "114,c8y_Restart")]);
    assert!(converter.is_registered("device/main//", "c8y_Restart"));

    let second = converter.register_operation(&device, "c8y_Restart", Ok(())).unwrap();
    assert!(second.is_empty());

    let third = converter.register_operation(&device, "c8y_Firmware", Ok(())).unwrap();
    assert_eq!(pairs(&third), vec![pair("c8y/s/us", "114,c8y_Firmware,c8y_Restart")]);
}

#[test]
fn register_operation_fails_without_marker() {
    let mut converter = CumulocityConverter::new("c8y", "operations/c8y");
    let device = main_device();
    let failed =
        converter.register_operation(&device, "c8y_Restart", Err("permission denied".to_string()));
    match failed {
        Err(ConversionError::FromStdIo(text)) => assert_eq!(text, "permission denied"),
        other => panic!("unexpected: {other:?}"),
    }
    assert!(!converter.is_registered("device/main//", "c8y_Restart"));

    // Once the marker can be made, the operation is announced as if for the first time.
    let announced = converter.register_operation(&device, "c8y_Restart", Ok(())).unwrap();
    assert_eq!(pairs(&announced), vec![pair("c8y/s/us", "114,c8y_Restart")]);
}

#[test]
fn metadata_without_marker_announces_nothing() {
    let mut converter = CumulocityConverter::new("c8y", "operations/c8y");
    let device = main_device();
    let messages = converter
        .convert_config_metadata(
            &device,
            metadata(&["typeA"]),
            "c8y_UploadConfigFile",
            Err("read-only file system".to_string()),
        )
        .unwrap();
    assert!(messages.is_empty());
    assert!(!converter.is_registered("device/main//", "c8y_UploadConfigFile"));
}

#[test]
fn unreadable_metadata_fails_the_conversion() {
    let mut converter = CumulocityConverter::new("c8y", "operations/c8y");
    let device = main_device();
    let failed = converter.convert_config_metadata(
        &device,
        Err(ConversionError::FromSerdeJson("expected value at line 1 column 1".to_string())),
        "c8y_UploadConfigFile",
        Ok(()),
    );
    match failed {
        Err(ConversionError::FromSerdeJson(text)) => {
            assert_eq!(text, "expected value at line 1 column 1")
        }
        other => panic!("unexpected: {other:?}"),
    }
    assert!(!converter.is_registered("device/main//", "c8y_UploadConfigFile"));
}

#[test]
fn devices_are_registered_apart() {
    let mut converter = CumulocityConverter::new("c8y", "operations/c8y");
    let main = main_device();
    let child1 = child_device("child1");
    let child2 = child_device("child2");

    converter.register_operation(&main, "c8y_Restart", Ok(())).unwrap();
    let for_child1 = converter.register_operation(&child1, "c8y_Firmware", Ok(())).unwrap();
    assert_eq!(
        pairs(&for_child1),
        vec![pair("c8y/s/us/test-device:device:child1", "114,c8y_Firmware")]
    );
    let for_child2 = converter.register_operation(&child2, "c8y_Restart", Ok(())).unwrap();
    assert_eq!(
        pairs(&for_child2),
        vec![pair("c8y/s/us/test-device:device:child2", "114,c8y_Restart")]
    );
    assert!(converter.is_registered("device/main//", "c8y_Restart"));
    assert!(!converter.is_registered("device/main//", "c8y_Firmware"));
    assert!(converter.is_registered("device/child1//", "c8y_Firmware"));
    assert!(!converter.is_registered("device/child1//", "c8y_Restart"));
}

#[test]
fn child_markers_lie_in_the_childs_directory() {
    let converter = CumulocityConverter::new("c8y", "/etc/tedge/operations/c8y");
    let main = main_device();
    let child = child_device("child1");
    assert_eq!(converter.marker_directory(&main), "/etc/tedge/operations/c8y");
    assert_eq!(
        converter.marker_directory(&child),
        "/etc/tedge/operations/c8y/test-device:device:child1"
    );
    assert_eq!(
        converter.marker_path(&child, "c8y_Restart"),
        "/etc/tedge/operations/c8y/test-device:device:child1/c8y_Restart"
    );
    assert_ne!(converter.marker_directory(&child), converter.marker_directory(&main));
}

#[test]
fn child_devices_publish_on_their_own_topic() {
    let main = Entity::snapshot(&main_device(), "c8y");
    let child = Entity::snapshot(&child_device("child1"), "c8y");
    assert_eq!(main.smartrest_publish_topic, "c8y/s/us");
    assert_eq!(child.smartrest_publish_topic, "c8y/s/us/test-device:device:child1");
    assert_ne!(main.smartrest_publish_topic, child.smartrest_publish_topic);
    assert_eq!(child.topic_id, "device/child1//");
    assert_eq!(child.external_id, "test-device:device:child1");

    let custom = Entity::snapshot(&child_device("child1"), "custom-c8y");
    assert_eq!(custom.smartrest_publish_topic, "custom-c8y/s/us/test-device:device:child1");
}

#[test]
fn converter_tells_what_it_has_announced() {
    let mut converter = CumulocityConverter::new("c8y", "operations/c8y");
    let device = main_device();
    assert!(converter.supported_operations("device/main//").is_empty());
    assert_eq!(converter.supported_types("device/main//", "c8y_UploadConfigFile"), None);

    converter
        .convert_config_metadata(
            &device,
            metadata(&["typeB", "typeA"]),
            "c8y_UploadConfigFile",
            Ok(()),
        )
        .unwrap();
    converter.register_operation(&device, "c8y_Restart", Ok(())).unwrap();
    assert_eq!(
        converter.supported_operations("device/main//"),
        vec!["c8y_Restart".to_string(), "c8y_UploadConfigFile".to_string()]
    );
    assert_eq!(
        converter.supported_types("device/main//", "c8y_UploadConfigFile"),
        Some(vec!["typeA".to_string(), "typeB".to_string()])
    );
    assert_eq!(converter.supported_types("device/main//", "c8y_Restart"), None);
    assert!(converter.supported_operations("device/child1//").is_empty());

    converter
        .convert_config_metadata(&device, metadata(&["typeZ"]), "c8y_UploadConfigFile", Ok(()))
        .unwrap();
    assert_eq!(
        converter.supported_types("device/main//", "c8y_UploadConfigFile"),
        Some(vec!["typeZ".to_string()])
    );
}

#[test]
fn registration_failure_is_told_in_a_warning() {
    assert_eq!(
        CumulocityConverter::registration_failure_report(
            "c8y_UploadConfigFile",
            "device/main//",
            "permission denied"
        ),
        "Failed to register c8y_UploadConfigFile operation for device/main// due to: permission denied"
    );
}

#[test]
fn remembered_operations_are_not_announced_again() {
    let mut converter = CumulocityConverter::new("c8y", "operations/c8y");
    let device = main_device();
    converter.remember_operation("device/main//", "c8y_Restart");
    converter.remember_operation("device/main//", "c8y_Restart");
    assert!(converter.is_registered("device/main//", "c8y_Restart"));
    assert_eq!(converter.supported_operations("device/main//"), vec!["c8y_Restart".to_string()]);

    let again = converter.register_operation(&device, "c8y_Restart", Ok(())).unwrap();
    assert!(again.is_empty());

    let new = converter.register_operation(&device, "c8y_Firmware", Ok(())).unwrap();
    assert_eq!(pairs(&new), vec![pair("c8y/s/us", "114,c8y_Firmware,c8y_Restart")]);
}
