//! The layered errors of the mapper.
//!
//! Three layers, outermost first: a failure to convert one message, which
//! names the topic it arrived on; the failures of the conversion itself; and
//! the failures of the infrastructure underneath. A variant that wraps
//! another error keeps that error's text verbatim: wrapping never loses
//! information.
//!
//! An error that originates outside this library is held as its text.

use crate::text::{decimal, to_decimal};
use vstd::prelude::*;

verus! {

/// Infrastructure failures, after which the process can usually not go on.
#[derive(Debug, Clone)]
pub enum MapperError {
    /// A failure of the bus client.
    FromMqttClient(String),
    /// A failure to load the configuration.
    FromTEdgeConfig(String),
    /// A failure to read one configuration setting.
    FromConfigSetting(String),
    /// A failure of the filesystem watch.
    FromNotifyFs(String),
    /// A raw I/O failure.
    FromStdIo(String),
}

impl MapperError {
    /// The text of this error: that of the failure it wraps.
    pub open spec fn text(&self) -> Seq<char> {
        match self {
            MapperError::FromMqttClient(cause) => cause@,
            MapperError::FromTEdgeConfig(cause) => cause@,
            MapperError::FromConfigSetting(cause) => cause@,
            MapperError::FromNotifyFs(cause) => cause@,
            MapperError::FromStdIo(cause) => cause@,
        }
    }

    /// Returns the text of this error.
    pub fn message(&self) -> (message: String)
        ensures
            message@ == self.text(),
    {
        match self {
            MapperError::FromMqttClient(cause) => cause.clone(),
            MapperError::FromTEdgeConfig(cause) => cause.clone(),
            MapperError::FromConfigSetting(cause) => cause.clone(),
            MapperError::FromNotifyFs(cause) => cause.clone(),
            MapperError::FromStdIo(cause) => cause.clone(),
        }
    }
}

/// Failures of the cloud-specific handling of operations.
#[derive(Debug, Clone)]
pub enum CumulocityMapperError {
    /// A failure of the entity store.
    FromEntityStore(String),
    /// A failure of the entity cache.
    FromEntityCacheError(String),
    /// A topic that is not well formed.
    InvalidTopicError(String),
    /// A software request or response that is not well formed.
    InvalidThinEdgeJson(String),
    /// A bounded wait that ran out.
    FromElapsed(String),
    /// A failure of the bus client.
    FromMqttClient(String),
    /// A failure to write a SmartREST record.
    FromSmartRestSerializer(String),
    /// A failure to read a SmartREST record.
    FromSmartRestDeserializer(String),
    /// A failure to read a JSON-over-MQTT operation.
    FromC8yJsonOverMqttDeserializerError(String),
    /// A failure of the software-management mapping.
    FromSmCumulocityMapperError(String),
    /// A failure to read one configuration setting.
    FromTedgeConfig(String),
    /// A failure to format a timestamp.
    FromTimeFormat(String),
    /// A failure to parse a timestamp.
    FromTimeParse(String),
    /// A raw I/O failure.
    FromIo(String),
    /// A failure to read or write JSON.
    FromSerde(String),
    /// A failure of the supported-operations registration.
    FromOperationsError(String),
    /// A failure of the operation-log store.
    FromOperationLogs(String),
    /// A failure to load the configuration.
    TedgeConfig(String),
    /// A failure of the cloud HTTP proxy.
    FromC8YRestError(String),
    /// A failure of a channel between components.
    ChannelError(String),
    /// A custom operation whose command failed.
    ExecuteFailed { error_message: String, command: String, operation_name: String },
    /// A directory of child-device operations that could not be read.
    ReadDirError { dir: String },
    /// A custom operation handler whose input could not be prepared.
    JsonCustomOperationHandlerError { operation: String, err_msg: String },
}

impl CumulocityMapperError {
    /// The text of this error. A variant that wraps another failure has that
    /// failure's text; the others describe themselves.
    pub open spec fn text(&self) -> Seq<char> {
        match self {
            CumulocityMapperError::FromEntityStore(cause) => cause@,
            CumulocityMapperError::FromEntityCacheError(cause) => cause@,
            CumulocityMapperError::InvalidTopicError(cause) => cause@,
            CumulocityMapperError::InvalidThinEdgeJson(cause) => cause@,
            CumulocityMapperError::FromElapsed(cause) => cause@,
            CumulocityMapperError::FromMqttClient(cause) => cause@,
            CumulocityMapperError::FromSmartRestSerializer(cause) => cause@,
            CumulocityMapperError::FromSmartRestDeserializer(cause) => cause@,
            CumulocityMapperError::FromC8yJsonOverMqttDeserializerError(cause) => cause@,
            CumulocityMapperError::FromSmCumulocityMapperError(cause) => cause@,
            CumulocityMapperError::FromTedgeConfig(cause) => cause@,
            CumulocityMapperError::FromTimeFormat(cause) => cause@,
            CumulocityMapperError::FromTimeParse(cause) => cause@,
            CumulocityMapperError::FromIo(cause) => cause@,
            CumulocityMapperError::FromSerde(cause) => cause@,
            CumulocityMapperError::FromOperationsError(cause) => cause@,
            CumulocityMapperError::FromOperationLogs(cause) => cause@,
            CumulocityMapperError::TedgeConfig(cause) => cause@,
            CumulocityMapperError::FromC8YRestError(cause) => cause@,
            CumulocityMapperError::ChannelError(cause) => cause@,
            CumulocityMapperError::ExecuteFailed { error_message, command, operation_name } => {
                "Operation execution failed: "@ + error_message@ + ". Command: "@ + command@
                    + ". Operation name: "@ + operation_name@
            },
            CumulocityMapperError::ReadDirError { dir } => {
                "Failed to read the child device operations in directory: "@ + dir@
            },
            CumulocityMapperError::JsonCustomOperationHandlerError { operation, err_msg } => {
                "Error occurred while preprocessing custom operation handler "@ + operation@
                    + ". Reason: "@ + err_msg@
            },
        }
    }

    /// Returns the text of this error.
    pub fn message(&self) -> (message: String)
        ensures
            message@ == self.text(),
    {
        match self {
            CumulocityMapperError::FromEntityStore(cause) => cause.clone(),
            CumulocityMapperError::FromEntityCacheError(cause) => cause.clone(),
            CumulocityMapperError::InvalidTopicError(cause) => cause.clone(),
            CumulocityMapperError::InvalidThinEdgeJson(cause) => cause.clone(),
            CumulocityMapperError::FromElapsed(cause) => cause.clone(),
            CumulocityMapperError::FromMqttClient(cause) => cause.clone(),
            CumulocityMapperError::FromSmartRestSerializer(cause) => cause.clone(),
            CumulocityMapperError::FromSmartRestDeserializer(cause) => cause.clone(),
            CumulocityMapperError::FromC8yJsonOverMqttDeserializerError(cause) => cause.clone(),
            CumulocityMapperError::FromSmCumulocityMapperError(cause) => cause.clone(),
            CumulocityMapperError::FromTedgeConfig(cause) => cause.clone(),
            CumulocityMapperError::FromTimeFormat(cause) => cause.clone(),
            CumulocityMapperError::FromTimeParse(cause) => cause.clone(),
            CumulocityMapperError::FromIo(cause) => cause.clone(),
            CumulocityMapperError::FromSerde(cause) => cause.clone(),
            CumulocityMapperError::FromOperationsError(cause) => cause.clone(),
            CumulocityMapperError::FromOperationLogs(cause) => cause.clone(),
            CumulocityMapperError::TedgeConfig(cause) => cause.clone(),
            CumulocityMapperError::FromC8YRestError(cause) => cause.clone(),
            CumulocityMapperError::ChannelError(cause) => cause.clone(),
            CumulocityMapperError::ExecuteFailed { error_message, command, operation_name } => {
                let mut message = String::from_str("Operation execution failed: ");
                message.append(error_message.as_str());
                message.append(". Command: ");
                message.append(command.as_str());
                message.append(". Operation name: ");
                message.append(operation_name.as_str());
                message
            },
            CumulocityMapperError::ReadDirError { dir } => {
                let mut message = String::from_str(
                    "Failed to read the child device operations in directory: ",
                );
                message.append(dir.as_str());
                message
            },
            CumulocityMapperError::JsonCustomOperationHandlerError { operation, err_msg } => {
                let mut message = String::from_str(
                    "Error occurred while preprocessing custom operation handler ",
                );
                message.append(operation.as_str());
                message.append(". Reason: ");
                message.append(err_msg.as_str());
                message
            },
        }
    }
}

/// Failures of the conversion of one message.
#[derive(Debug, Clone)]
pub enum ConversionError {
    /// An infrastructure failure met during the conversion.
    FromMapper(MapperError),
    /// A failure of the cloud-specific handling of an operation.
    FromCumulocityMapperError(CumulocityMapperError),
    /// A failure to build the cloud's JSON form of a message.
    FromCumulocityJsonError(String),
    /// A failure of the software-management mapping.
    FromCumulocitySmartRestMapperError(String),
    /// A failure to write a measurement.
    FromThinEdgeJsonSerialization(String),
    /// A failure to read an alarm.
    FromThinEdgeJsonAlarmDeserialization(String),
    /// A failure to read an event.
    FromThinEdgeJsonEventDeserialization(String),
    /// A failure to parse a measurement.
    FromThinEdgeJsonParser(String),
    /// A payload larger than the size threshold.
    SizeThresholdExceeded(String),
    /// A failure of the bus client.
    FromMqttClient(String),
    /// A failure of the supported-operations registration.
    FromOperationsError(String),
    /// A failure to write a SmartREST record.
    FromSmartRestSerializerError(String),
    /// A failure to read a SmartREST record.
    FromSmartRestDeserializerError(String),
    /// A failure to read or write JSON.
    FromSerdeJson(String),
    /// A raw I/O failure.
    FromStdIo(String),
    /// A payload that is not UTF-8.
    FromUtf8Error(String),
    /// A failure to format a timestamp.
    FromTimeFormatError(String),
    /// A failure of the operation-log store.
    FromOperationLogsError(String),
    /// A failure of the cloud HTTP proxy.
    FromC8YRestError(String),
    /// A failure to create or change a file.
    FileError(String),
    /// A failure to build the cloud's form of an alarm.
    FromC8yAlarmError(String),
    /// A failure of the entity store.
    FromEntityStoreError(String),
    /// A failure of the entity cache.
    FromEntityCacheError(String),
    /// An external identifier that is not acceptable.
    InvalidExternalIdError(String),
    /// A failure of a channel between components.
    ChannelError(String),
    /// A JSON value that was expected and is absent.
    FromOptionError,
    /// A translated payload that is larger than the threshold allows.
    TranslatedSizeExceededThreshold {
        payload: String,
        topic: String,
        actual_size: usize,
        threshold: usize,
    },
    /// A child device that the cloud does not know yet.
    ChildDeviceNotRegistered { id: String },
    /// A path from which no child device name can be taken.
    DirPathComponentError { dir: String },
    /// A failure that fits no other variant, held as its debug text.
    UnexpectedError(String),
    /// An unknown entity, while automatic registration is switched off.
    AutoRegistrationDisabled(String),
}

impl ConversionError {
    /// The text of this error. A variant that wraps another failure has that
    /// failure's text; the others describe themselves.
    pub open spec fn text(&self) -> Seq<char> {
        match self {
            ConversionError::FromMapper(error) => error.text(),
            ConversionError::FromCumulocityMapperError(error) => error.text(),
            ConversionError::FromCumulocityJsonError(cause) => cause@,
            ConversionError::FromCumulocitySmartRestMapperError(cause) => cause@,
            ConversionError::FromThinEdgeJsonSerialization(cause) => cause@,
            ConversionError::FromThinEdgeJsonAlarmDeserialization(cause) => cause@,
            ConversionError::FromThinEdgeJsonEventDeserialization(cause) => cause@,
            ConversionError::FromThinEdgeJsonParser(cause) => cause@,
            ConversionError::SizeThresholdExceeded(cause) => cause@,
            ConversionError::FromMqttClient(cause) => cause@,
            ConversionError::FromOperationsError(cause) => cause@,
            ConversionError::FromSmartRestSerializerError(cause) => cause@,
            ConversionError::FromSmartRestDeserializerError(cause) => cause@,
            ConversionError::FromSerdeJson(cause) => cause@,
            ConversionError::FromStdIo(cause) => cause@,
            ConversionError::FromUtf8Error(cause) => cause@,
            ConversionError::FromTimeFormatError(cause) => cause@,
            ConversionError::FromOperationLogsError(cause) => cause@,
            ConversionError::FromC8YRestError(cause) => cause@,
            ConversionError::FileError(cause) => cause@,
            ConversionError::FromC8yAlarmError(cause) => cause@,
            ConversionError::FromEntityStoreError(cause) => cause@,
            ConversionError::FromEntityCacheError(cause) => cause@,
            ConversionError::InvalidExternalIdError(cause) => cause@,
            ConversionError::ChannelError(cause) => cause@,
            ConversionError::FromOptionError => "Error converting json option"@,
            ConversionError::TranslatedSizeExceededThreshold {
                payload,
                topic,
                actual_size,
                threshold,
            } => {
                "The payload "@ + payload@ + " received on "@ + topic@ + " after translation is "@
                    + decimal(*actual_size as nat) + " greater than the threshold size of "@
                    + decimal(*threshold as nat) + "."@
            },
            ConversionError::ChildDeviceNotRegistered { id } => {
                "The given Child ID '"@ + id@
                    + "' is not registered with Cumulocity. To send the events to the child device, it has to be registered first."@
            },
            ConversionError::DirPathComponentError { dir } => {
                "Failed to extract the child device name from file path : "@ + dir@
            },
            ConversionError::UnexpectedError(cause) => "Unexpected error: "@ + cause@,
            ConversionError::AutoRegistrationDisabled(entity) => {
                "The provided entity: "@ + entity@
                    + " was not found and could not be auto-registered either, because it is disabled"@
            },
        }
    }

    /// Returns the text of this error.
    pub fn message(&self) -> (message: String)
        ensures
            message@ == self.text(),
    {
        match self {
            ConversionError::FromMapper(error) => error.message(),
            ConversionError::FromCumulocityMapperError(error) => error.message(),
            ConversionError::FromCumulocityJsonError(cause) => cause.clone(),
            ConversionError::FromCumulocitySmartRestMapperError(cause) => cause.clone(),
            ConversionError::FromThinEdgeJsonSerialization(cause) => cause.clone(),
            ConversionError::FromThinEdgeJsonAlarmDeserialization(cause) => cause.clone(),
            ConversionError::FromThinEdgeJsonEventDeserialization(cause) => cause.clone(),
            ConversionError::FromThinEdgeJsonParser(cause) => cause.clone(),
            ConversionError::SizeThresholdExceeded(cause) => cause.clone(),
            ConversionError::FromMqttClient(cause) => cause.clone(),
            ConversionError::FromOperationsError(cause) => cause.clone(),
            ConversionError::FromSmartRestSerializerError(cause) => cause.clone(),
            ConversionError::FromSmartRestDeserializerError(cause) => cause.clone(),
            ConversionError::FromSerdeJson(cause) => cause.clone(),
            ConversionError::FromStdIo(cause) => cause.clone(),
            ConversionError::FromUtf8Error(cause) => cause.clone(),
            ConversionError::FromTimeFormatError(cause) => cause.clone(),
            ConversionError::FromOperationLogsError(cause) => cause.clone(),
            ConversionError::FromC8YRestError(cause) => cause.clone(),
            ConversionError::FileError(cause) => cause.clone(),
            ConversionError::FromC8yAlarmError(cause) => cause.clone(),
            ConversionError::FromEntityStoreError(cause) => cause.clone(),
            ConversionError::FromEntityCacheError(cause) => cause.clone(),
            ConversionError::InvalidExternalIdError(cause) => cause.clone(),
            ConversionError::ChannelError(cause) => cause.clone(),
            ConversionError::FromOptionError => String::from_str("Error converting json option"),
            ConversionError::TranslatedSizeExceededThreshold {
                payload,
                topic,
                actual_size,
                threshold,
            } => {
                let mut message = String::from_str("The payload ");
                message.append(payload.as_str());
                message.append(" received on ");
                message.append(topic.as_str());
                message.append(" after translation is ");
                message.append(to_decimal(*actual_size).as_str());
                message.append(" greater than the threshold size of ");
                message.append(to_decimal(*threshold).as_str());
                message.append(".");
                message
            },
            ConversionError::ChildDeviceNotRegistered { id } => {
                let mut message = String::from_str("The given Child ID '");
                message.append(id.as_str());
                message.append(
                    "' is not registered with Cumulocity. To send the events to the child device, it has to be registered first.",
                );
                message
            },
            ConversionError::DirPathComponentError { dir } => {
                let mut message = String::from_str(
                    "Failed to extract the child device name from file path : ",
                );
                message.append(dir.as_str());
                message
            },
            ConversionError::UnexpectedError(cause) => {
                let mut message = String::from_str("Unexpected error: ");
                message.append(cause.as_str());
                message
            },
            ConversionError::AutoRegistrationDisabled(entity) => {
                let mut message = String::from_str("The provided entity: ");
                message.append(entity.as_str());
                message.append(
                    " was not found and could not be auto-registered either, because it is disabled",
                );
                message
            },
        }
    }

    /// Wraps an infrastructure failure.
    pub fn from_mapper(error: MapperError) -> (wrapped: ConversionError)
        ensures
            wrapped == ConversionError::FromMapper(error),
            wrapped.text() == error.text(),
    {
        ConversionError::FromMapper(error)
    }

    /// Wraps a failure of the cloud-specific handling of an operation.
    pub fn from_cumulocity_mapper(error: CumulocityMapperError) -> (wrapped: ConversionError)
        ensures
            wrapped == ConversionError::FromCumulocityMapperError(error),
            wrapped.text() == error.text(),
    {
        ConversionError::FromCumulocityMapperError(error)
    }
}

/// The failure to convert one message, with the topic the message arrived on.
/// It ends the handling of that message and of no other.
#[derive(Debug, Clone)]
pub struct MessageConversionError {
    pub error: ConversionError,
    pub topic: String,
}

impl MessageConversionError {
    /// The text of this error: the topic, then the text of the failure.
    pub open spec fn text(&self) -> Seq<char> {
        "Failed to convert a message on topic '"@ + self.topic@ + "': "@ + self.error.text()
    }

    /// Annotates a conversion failure with the topic of the message.
    pub fn new(error: ConversionError, topic: &str) -> (wrapped: MessageConversionError)
        ensures
            wrapped.error == error,
            wrapped.topic@ == topic@,
    {
        MessageConversionError { error, topic: String::from_str(topic) }
    }

    /// Returns the text of this error.
    pub fn message(&self) -> (message: String)
        ensures
            message@ == self.text(),
    {
        let mut message = String::from_str("Failed to convert a message on topic '");
        message.append(self.topic.as_str());
        message.append("': ");
        message.append(self.error.message().as_str());
        message
    }
}

/// A failure that passes through the conversion layer keeps its text,
/// whichever lower layer it came from.
pub proof fn lemma_layers_keep_text(infrastructure: MapperError, cloud: CumulocityMapperError)
    ensures
        ConversionError::FromMapper(infrastructure).text() == infrastructure.text(),
        ConversionError::FromCumulocityMapperError(cloud).text() == cloud.text(),
{
}

/// The text of a failure to convert a message ends with the text of the
/// failure it wraps, character for character.
pub proof fn lemma_text_survives_wrapping(outer: MessageConversionError)
    ensures
        outer.text().len() >= outer.error.text().len(),
        outer.text().skip(outer.text().len() - outer.error.text().len()) == outer.error.text(),
{
    let head = "Failed to convert a message on topic '"@ + outer.topic@ + "': "@;
    assert(outer.text() =~= head + outer.error.text());
    assert((head + outer.error.text()).skip(head.len() as int) =~= outer.error.text());
}

} // verus!
