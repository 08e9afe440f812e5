//! The announcement of what a device can do.
//!
//! The cloud is told once that a device supports an operation, and again
//! only when the device comes to support another. The values that an
//! operation accepts may change at any time, so they are told anew with
//! every metadata message.
//!
//! What has been announced is also marked on disk, by one empty file for each
//! device and operation. The files are not made here: the converter says
//! where the marker belongs, and is told how its creation went.

use crate::entity::{smartrest_publish_topic, EntityRecord, EntityType};
use crate::error::ConversionError;
use crate::message::{Message, MessageView};
use crate::operation::{message_views, OperationType, OperationTypeView};
use crate::status::CumulocitySupportedOperations;
use crate::name_list::NameList;
use crate::text::{
    clone_strings, join, join_strings, sort_strings, sort_texts, strictly_sorted, texts,
};
use crate::text_map::TextMap;
use vstd::prelude::*;

verus! {

/// The body of a metadata message for a configuration operation: the types
/// of configuration that the device handles.
#[derive(Debug)]
pub struct ConfigMetadata {
    pub types: Vec<String>,
}

/// What has been announced for one device.
struct DeviceCapabilities {
    /// The names of the operations announced.
    operations: NameList,
    /// For each operation that accepts values, the values last announced.
    values: TextMap<Vec<String>>,
}

/// Converts metadata messages into announcements, and remembers what the
/// cloud has been told.
pub struct CumulocityConverter {
    c8y_prefix: String,
    ops_dir: String,
    devices: TextMap<DeviceCapabilities>,
}

/// The mathematical content of a [`CumulocityConverter`].
pub struct ConverterView {
    /// The prefix of the topics that lead to the cloud.
    pub c8y_prefix: Seq<char>,
    /// The directory that holds the markers of the main device.
    pub ops_dir: Seq<char>,
    /// For each device, by its topic identifier, the names of the operations
    /// announced for it, in lexicographic order.
    pub operations: Map<Seq<char>, Seq<Seq<char>>>,
    /// For each device and operation, the values last announced.
    pub values: Map<(Seq<char>, Seq<char>), Seq<Seq<char>>>,
}

impl ConverterView {
    /// The names of the operations announced for `device`, in order.
    pub open spec fn announced(self, device: Seq<char>) -> Seq<Seq<char>> {
        if self.operations.contains_key(device) {
            self.operations[device]
        } else {
            Seq::empty()
        }
    }

    /// Whether `operation` has been announced for `device`.
    pub open spec fn is_registered(self, device: Seq<char>, operation: Seq<char>) -> bool {
        self.announced(device).contains(operation)
    }

    /// Whether each device's operations are listed in strictly ascending
    /// order, so that none is listed twice.
    pub open spec fn wf(self) -> bool {
        forall|device: Seq<char>| #[trigger]
            self.operations.contains_key(device) ==> strictly_sorted(self.operations[device])
    }

    /// Whether `self` is what `before` becomes when `operation` is registered
    /// for `device`: nothing changes where the pair is registered already;
    /// otherwise the operation joins those of the device, and nothing else
    /// changes.
    pub open spec fn registers(self, before: ConverterView, device: Seq<char>, operation: Seq<char>) -> bool {
        &&& self.wf()
        &&& self.c8y_prefix == before.c8y_prefix
        &&& self.ops_dir == before.ops_dir
        &&& self.values == before.values
        &&& if before.is_registered(device, operation) {
            self == before
        } else {
            &&& self.operations == before.operations.insert(device, self.announced(device))
            &&& self.announced(device).to_set() == before.announced(device).to_set().insert(
                operation,
            )
        }
    }
}

/// The operation that the cloud is told of when a device announces that it
/// handles `operation`, where that is a configuration operation: taking a
/// snapshot of a configuration is an upload of a configuration file in the
/// eyes of the cloud, and updating a configuration is a download.
pub open spec fn config_capability(operation: OperationTypeView) -> Option<
    CumulocitySupportedOperations,
> {
    match operation {
        OperationTypeView::ConfigSnapshot => Some(CumulocitySupportedOperations::C8yUploadConfigFile),
        OperationTypeView::ConfigUpdate => Some(
            CumulocitySupportedOperations::C8yDownloadConfigFile,
        ),
        _ => None,
    }
}

/// The payload that announces the operations `names` of a device.
pub open spec fn supported_operations_payload(names: Seq<Seq<char>>) -> Seq<char> {
    "114,"@ + join(names, ","@)
}

/// The payload that announces the values `types` of an operation, in
/// lexicographic order.
pub open spec fn supported_types_payload(types: Seq<Seq<char>>) -> Seq<char> {
    "119,"@ + join(sort_texts(types), ","@)
}

/// The directory that holds the markers of an entity: the main device's is
/// `ops_dir` itself; a child device has a directory of its own in it, named
/// by its external identifier.
pub open spec fn marker_directory(
    ops_dir: Seq<char>,
    entity_type: EntityType,
    external_id: Seq<char>,
) -> Seq<char> {
    match entity_type {
        EntityType::MainDevice => ops_dir,
        EntityType::ChildDevice => ops_dir + "/"@ + external_id,
    }
}

/// The file that marks `operation` as announced for an entity.
pub open spec fn marker_path(
    ops_dir: Seq<char>,
    entity_type: EntityType,
    external_id: Seq<char>,
    operation: Seq<char>,
) -> Seq<char> {
    marker_directory(ops_dir, entity_type, external_id) + "/"@ + operation
}

/// What a registration announces: nothing where the pair was registered
/// before; otherwise one message, on the entity's own status topic, that
/// lists all operations now registered for the device.
pub open spec fn registration_messages(
    before: ConverterView,
    after: ConverterView,
    target: EntityRecord,
    operation: Seq<char>,
) -> Seq<MessageView> {
    if before.is_registered(target.topic_id@, operation) {
        Seq::empty()
    } else {
        seq![
            MessageView {
                topic: smartrest_publish_topic(
                    before.c8y_prefix,
                    target.entity_type,
                    target.external_id@,
                ),
                payload: supported_operations_payload(after.announced(target.topic_id@)),
            },
        ]
    }
}

/// The message that announces the values `types`, on the entity's own status
/// topic.
pub open spec fn supported_types_message(
    c8y_prefix: Seq<char>,
    target: EntityRecord,
    types: Seq<Seq<char>>,
) -> MessageView {
    MessageView {
        topic: smartrest_publish_topic(c8y_prefix, target.entity_type, target.external_id@),
        payload: supported_types_payload(types),
    }
}

impl DeviceCapabilities {
    fn new() -> (capabilities: DeviceCapabilities)
        ensures
            capabilities.operations@ == Seq::<Seq<char>>::empty(),
            capabilities.values@ == Map::<Seq<char>, Vec<String>>::empty(),
    {
        DeviceCapabilities { operations: NameList::new(), values: TextMap::new() }
    }
}

impl View for CumulocityConverter {
    type V = ConverterView;

    closed spec fn view(&self) -> ConverterView {
        ConverterView {
            c8y_prefix: self.c8y_prefix@,
            ops_dir: self.ops_dir@,
            operations: Map::new(
                |device: Seq<char>| self.devices@.contains_key(device),
                |device: Seq<char>| self.devices@[device].operations@,
            ),
            values: Map::new(
                |pair: (Seq<char>, Seq<char>)|
                    self.devices@.contains_key(pair.0) && self.devices@[pair.0].values@.contains_key(
                        pair.1,
                    ),
                |pair: (Seq<char>, Seq<char>)| texts(self.devices@[pair.0].values@[pair.1]@),
            ),
        }
    }
}

impl CumulocityConverter {
    #[verifier::type_invariant]
    spec fn well_formed(&self) -> bool {
        self@.wf()
    }

    /// Makes a converter that has announced nothing yet. The topics that lead
    /// to the cloud start with `c8y_prefix`; the markers of the main device
    /// are kept in `ops_dir`.
    pub fn new(c8y_prefix: &str, ops_dir: &str) -> (converter: CumulocityConverter)
        ensures
            converter@.wf(),
            converter@.c8y_prefix == c8y_prefix@,
            converter@.ops_dir == ops_dir@,
            converter@.operations == Map::<Seq<char>, Seq<Seq<char>>>::empty(),
            converter@.values == Map::<(Seq<char>, Seq<char>), Seq<Seq<char>>>::empty(),
    {
        let converter = CumulocityConverter {
            c8y_prefix: String::from_str(c8y_prefix),
            ops_dir: String::from_str(ops_dir),
            devices: TextMap::new(),
        };
        proof {
            assert(converter@.operations =~= Map::<Seq<char>, Seq<Seq<char>>>::empty());
            assert(converter@.values =~= Map::<(Seq<char>, Seq<char>), Seq<Seq<char>>>::empty());
        }
        converter
    }

    /// Tells which operation the cloud is told of when a device announces
    /// that it handles `operation`, where that is a configuration operation.
    pub fn config_capability(operation: &OperationType) -> (capability: Option<
        CumulocitySupportedOperations,
    >)
        ensures
            capability == config_capability(operation@),
    {
        match operation {
            OperationType::ConfigSnapshot => Some(
                CumulocitySupportedOperations::C8yUploadConfigFile,
            ),
            OperationType::ConfigUpdate => Some(
                CumulocitySupportedOperations::C8yDownloadConfigFile,
            ),
            _ => None,
        }
    }

    /// Tells whether `operation` has been announced for the device `device`.
    pub fn is_registered(&self, device: &str, operation: &str) -> (registered: bool)
        ensures
            registered == self@.is_registered(device@, operation@),
    {
        proof {
            use_type_invariant(self);
        }
        match self.devices.get(device) {
            Some(capabilities) => capabilities.operations.contains(operation),
            None => false,
        }
    }

    /// Lists the operations announced for the device `device`, in
    /// lexicographic order.
    pub fn supported_operations(&self, device: &str) -> (names: Vec<String>)
        ensures
            texts(names@) == self@.announced(device@),
    {
        match self.devices.get(device) {
            Some(capabilities) => clone_strings(capabilities.operations.names()),
            None => {
                let names: Vec<String> = Vec::new();
                assert(texts(names@) =~= self@.announced(device@));
                names
            },
        }
    }

    /// Lists the values last announced for `operation` on the device
    /// `device`, if any were.
    pub fn supported_types(&self, device: &str, operation: &str) -> (types: Option<Vec<String>>)
        ensures
            types is Some <==> self@.values.contains_key((device@, operation@)),
            types matches Some(listed) ==> texts(listed@) == self@.values[(device@, operation@)],
    {
        match self.devices.get(device) {
            Some(capabilities) => match capabilities.values.get(operation) {
                Some(listed) => Some(clone_strings(listed)),
                None => None,
            },
            None => None,
        }
    }

    /// Writes the warning that tells of a registration that did not take
    /// place, because the marker for `c8y_operation_name` on the device with
    /// the topic identifier `topic_id` could not be made.
    pub fn registration_failure_report(
        c8y_operation_name: &str,
        topic_id: &str,
        cause: &str,
    ) -> (report: String)
        ensures
            report@ == "Failed to register "@ + c8y_operation_name@ + " operation for "@ + topic_id@
                + " due to: "@ + cause@,
    {
        let mut report = String::from_str("Failed to register ");
        report.append(c8y_operation_name);
        report.append(" operation for ");
        report.append(topic_id);
        report.append(" due to: ");
        report.append(cause);
        report
    }

    /// Returns the directory that holds the markers of `target`.
    pub fn marker_directory(&self, target: &EntityRecord) -> (directory: String)
        ensures
            directory@ == marker_directory(self@.ops_dir, target.entity_type, target.external_id@),
    {
        let mut directory = self.ops_dir.clone();
        match target.entity_type {
            EntityType::MainDevice => {},
            EntityType::ChildDevice => {
                directory.append("/");
                directory.append(target.external_id.as_str());
            },
        }
        directory
    }

    /// Returns the file that marks `operation` as announced for `target`.
    pub fn marker_path(&self, target: &EntityRecord, operation: &str) -> (path: String)
        ensures
            path@ == marker_path(
                self@.ops_dir,
                target.entity_type,
                target.external_id@,
                operation@,
            ),
    {
        let mut path = self.marker_directory(target);
        path.append("/");
        path.append(operation);
        path
    }

    /// Takes note that `c8y_operation_name` has been announced for the device
    /// with the topic identifier `device`, without announcing it: as for a
    /// marker that was on disk when the mapper started.
    pub fn remember_operation(&mut self, device: &str, c8y_operation_name: &str)
        ensures
            final(self)@.registers(old(self)@, device@, c8y_operation_name@),
    {
        proof {
            use_type_invariant(&*self);
        }
        let ghost before = self@;
        let ghost devices_before = self.devices@;
        let mut devices: TextMap<DeviceCapabilities> = TextMap::new();
        std::mem::swap(&mut self.devices, &mut devices);
        let taken = devices.replace(device, DeviceCapabilities::new());
        let mut capabilities = match taken {
            Some(held) => held,
            None => DeviceCapabilities::new(),
        };
        proof {
            if devices_before.contains_key(device@) {
                assert(before.operations.contains_key(device@));
                assert(capabilities.operations@ == before.announced(device@));
            } else {
                assert(capabilities.operations@ =~= before.announced(device@));
            }
        }
        let ghost values = capabilities.values;
        let added = capabilities.operations.insert(c8y_operation_name);
        let ghost now = capabilities.operations@;
        devices.replace(device, capabilities);
        proof {
            assert(devices@ =~= devices_before.insert(device@, devices@[device@]));
            assert forall|other: Seq<char>| #[trigger] devices@.contains_key(other) implies strictly_sorted(
                devices@[other].operations@,
            ) by {
                if other != device@ {
                    assert(before.operations.contains_key(other));
                    assert(before.operations[other] == devices@[other].operations@);
                }
            }
        }
        self.devices = devices;
        proof {
            assert(self@.announced(device@) == now);
            assert(self@.operations =~= before.operations.insert(device@, now));
            assert(self@.values =~= before.values) by {
                assert forall|pair: (Seq<char>, Seq<char>)|
                    self@.values.contains_key(pair) == before.values.contains_key(pair) && (
                    self@.values.contains_key(pair) ==> self@.values[pair]
                        == before.values[pair]) by {
                    if pair.0 == device@ {
                        assert(self.devices@[device@].values == values);
                    }
                }
            }
            if before.is_registered(device@, c8y_operation_name@) {
                assert(!added);
                assert(self@.operations =~= before.operations);
            }
        }
    }

    /// Registers the operation `c8y_operation_name` for the device `target`,
    /// given how the creation of its marker went: `Ok` where the marker is in
    /// place, else the text of the I/O failure.
    ///
    /// Without the marker nothing is registered and the failure is handed
    /// back. With it, the first registration of the pair yields the
    /// announcement of all operations now registered for the device; a later
    /// one yields nothing.
    pub fn register_operation(
        &mut self,
        target: &EntityRecord,
        c8y_operation_name: &str,
        marker: Result<(), String>,
    ) -> (announced: Result<Vec<Message>, ConversionError>)
        ensures
            final(self)@.wf(),
            marker matches Err(cause) ==> final(self)@ == old(self)@ && (announced matches Err(
                ConversionError::FromStdIo(text),
            ) && text@ == cause@),
            marker is Ok ==> final(self)@.registers(
                old(self)@,
                target.topic_id@,
                c8y_operation_name@,
            ) && (announced matches Ok(messages) && message_views(messages@)
                == registration_messages(old(self)@, final(self)@, *target, c8y_operation_name@)),
    {
        proof {
            use_type_invariant(&*self);
        }
        match marker {
            Err(cause) => {
                return Err(ConversionError::FromStdIo(cause));
            },
            Ok(_) => {},
        }
        let mut messages: Vec<Message> = Vec::new();
        proof {
            assert(message_views(messages@) =~= Seq::empty());
        }
        if self.is_registered(target.topic_id.as_str(), c8y_operation_name) {
            return Ok(messages);
        }
        self.remember_operation(target.topic_id.as_str(), c8y_operation_name);
        let names = join_strings(&self.supported_operations(target.topic_id.as_str()), ",");
        let mut payload = String::from_str("114,");
        payload.append(names.as_str());
        let topic = target.smartrest_publish_topic(self.c8y_prefix.as_str());
        messages.push(Message { topic, payload });
        proof {
            assert(message_views(messages@) =~= registration_messages(
                old(self)@,
                self@,
                *target,
                c8y_operation_name@,
            ));
        }
        Ok(messages)
    }

    /// Converts a metadata message for the configuration operation that the
    /// cloud knows as `c8y_op_name` on the device `target`, given the body of
    /// the message as far as it could be read, and how the creation of the
    /// operation's marker went.
    ///
    /// A body that could not be read ends the conversion with that failure.
    /// Where the marker could not be made, nothing is announced. Otherwise
    /// the operation is registered, and the messages are the announcement
    /// that the registration yields, if any, and then the list of the types
    /// that the device handles, which is announced every time.
    pub fn convert_config_metadata(
        &mut self,
        target: &EntityRecord,
        metadata: Result<ConfigMetadata, ConversionError>,
        c8y_op_name: &str,
        marker: Result<(), String>,
    ) -> (converted: Result<Vec<Message>, ConversionError>)
        ensures
            final(self)@.wf(),
            metadata matches Err(error) ==> final(self)@ == old(self)@ && converted == Err::<
                Vec<Message>,
                ConversionError,
            >(error),
            metadata matches Ok(body) ==> match marker {
                Err(_) => final(self)@ == old(self)@ && (converted matches Ok(messages)
                    && messages@.len() == 0),
                Ok(_) => {
                    &&& final(self)@.announces(
                        old(self)@,
                        target.topic_id@,
                        c8y_op_name@,
                        texts(body.types@),
                    )
                    &&& converted matches Ok(messages) && message_views(messages@)
                        == metadata_messages(
                        old(self)@,
                        final(self)@,
                        *target,
                        c8y_op_name@,
                        texts(body.types@),
                    )
                },
            },
    {
        proof {
            use_type_invariant(&*self);
        }
        let body = match metadata {
            Ok(body) => body,
            Err(error) => {
                return Err(error);
            },
        };
        let ghost before = self@;
        let ghost device = target.topic_id@;
        let mut messages = match self.register_operation(target, c8y_op_name, marker) {
            Ok(messages) => messages,
            Err(_) => {
                return Ok(Vec::new());
            },
        };
        let ghost registered = self@;
        let ghost announcement = message_views(messages@);
        let ghost given = texts(body.types@);
        let types = sort_strings(body.types);
        let joined = join_strings(&types, ",");
        let mut payload = String::from_str("119,");
        payload.append(joined.as_str());
        let topic = target.smartrest_publish_topic(self.c8y_prefix.as_str());
        messages.push(Message { topic, payload });

        let ghost devices_before = self.devices@;
        proof {
            assert(registered.operations.contains_key(device)) by {
                if before.is_registered(device, c8y_op_name@) {
                    assert(before.announced(device).len() > 0);
                }
            }
            assert(devices_before.contains_key(device));
        }
        let mut devices: TextMap<DeviceCapabilities> = TextMap::new();
        std::mem::swap(&mut self.devices, &mut devices);
        let taken = devices.replace(target.topic_id.as_str(), DeviceCapabilities::new());
        let mut capabilities = match taken {
            Some(held) => held,
            None => DeviceCapabilities::new(),
        };
        capabilities.values.replace(c8y_op_name, types);
        devices.replace(target.topic_id.as_str(), capabilities);
        proof {
            assert(devices@ =~= devices_before.insert(device, devices@[device]));
            assert forall|other: Seq<char>| #[trigger] devices@.contains_key(other) implies strictly_sorted(
                devices@[other].operations@,
            ) by {
                assert(registered.operations.contains_key(other));
                assert(registered.operations[other] == devices@[other].operations@);
            }
        }
        self.devices = devices;
        proof {
            assert(self@.operations =~= registered.operations);
            assert(self@.values =~= registered.values.insert(
                (device, c8y_op_name@),
                sort_texts(given),
            ));
            assert(message_views(messages@) =~= announcement.push(
                supported_types_message(before.c8y_prefix, *target, given),
            ));
        }
        Ok(messages)
    }
}

impl ConverterView {
    /// Whether `self` is what `before` becomes when a metadata message
    /// announces `operation` for `device` with the values `types`: the
    /// operation is registered, and the values are remembered, in order, as
    /// those last announced for it.
    pub open spec fn announces(
        self,
        before: ConverterView,
        device: Seq<char>,
        operation: Seq<char>,
        types: Seq<Seq<char>>,
    ) -> bool {
        &&& self.wf()
        &&& self.values == before.values.insert((device, operation), sort_texts(types))
        &&& (ConverterView { values: before.values, ..self }).registers(before, device, operation)
    }
}

/// The messages that a metadata message yields: the announcement of the
/// registration, if it is the first for the pair, and then the list of
/// types.
pub open spec fn metadata_messages(
    before: ConverterView,
    after: ConverterView,
    target: EntityRecord,
    operation: Seq<char>,
    types: Seq<Seq<char>>,
) -> Seq<MessageView> {
    registration_messages(before, after, target, operation).push(
        supported_types_message(before.c8y_prefix, target, types),
    )
}

/// An operation is announced once for a device. After the first metadata
/// message for a pair that was not registered, which yields the announcement
/// and the list of types, a second one for the same pair yields the new list
/// of types and nothing else, and leaves the registered operations as they
/// are.
pub proof fn lemma_capability_is_announced_once(
    start: ConverterView,
    first: ConverterView,
    second: ConverterView,
    target: EntityRecord,
    operation: Seq<char>,
    first_types: Seq<Seq<char>>,
    second_types: Seq<Seq<char>>,
)
    requires
        !start.is_registered(target.topic_id@, operation),
        first.announces(start, target.topic_id@, operation, first_types),
        second.announces(first, target.topic_id@, operation, second_types),
    ensures
        metadata_messages(start, first, target, operation, first_types) == seq![
            MessageView {
                topic: smartrest_publish_topic(
                    start.c8y_prefix,
                    target.entity_type,
                    target.external_id@,
                ),
                payload: supported_operations_payload(first.announced(target.topic_id@)),
            },
            supported_types_message(start.c8y_prefix, target, first_types),
        ],
        first.is_registered(target.topic_id@, operation),
        metadata_messages(first, second, target, operation, second_types) == seq![
            supported_types_message(start.c8y_prefix, target, second_types),
        ],
        second.operations == first.operations,
{
    let device = target.topic_id@;
    assert(first.announced(device).to_set().contains(operation));
    assert(metadata_messages(start, first, target, operation, first_types) =~= seq![
        MessageView {
            topic: smartrest_publish_topic(
                start.c8y_prefix,
                target.entity_type,
                target.external_id@,
            ),
            payload: supported_operations_payload(first.announced(target.topic_id@)),
        },
        supported_types_message(start.c8y_prefix, target, first_types),
    ]);
    assert(metadata_messages(first, second, target, operation, second_types) =~= seq![
        supported_types_message(start.c8y_prefix, target, second_types),
    ]);
}

/// Registering an operation for one device leaves what is registered for
/// every other device, and every other operation of the same device, as it
/// was.
pub proof fn lemma_registration_touches_one_pair(
    before: ConverterView,
    after: ConverterView,
    device: Seq<char>,
    operation: Seq<char>,
    other_device: Seq<char>,
    other_operation: Seq<char>,
)
    requires
        after.registers(before, device, operation),
        other_device != device || other_operation != operation,
    ensures
        after.is_registered(device, operation),
        after.is_registered(other_device, other_operation) == before.is_registered(
            other_device,
            other_operation,
        ),
{
    assert(after.announced(device).to_set().contains(operation) || before.is_registered(
        device,
        operation,
    ));
    if other_device == device && !before.is_registered(device, operation) {
        assert(after.announced(device).to_set().contains(other_operation)
            == before.announced(device).to_set().contains(other_operation));
    }
}

/// The markers of a child device lie in a directory of the child's own,
/// inside the directory of the main device: not in the main device's
/// directory itself, and not in that of a child with another identifier.
pub proof fn lemma_child_markers_have_their_own_directory(
    ops_dir: Seq<char>,
    child: Seq<char>,
    other: Seq<char>,
    operation: Seq<char>,
)
    ensures
        marker_path(ops_dir, EntityType::ChildDevice, child, operation) == ops_dir + "/"@ + child
            + "/"@ + operation,
        marker_directory(ops_dir, EntityType::ChildDevice, child) != marker_directory(
            ops_dir,
            EntityType::MainDevice,
            other,
        ),
        child != other ==> marker_directory(ops_dir, EntityType::ChildDevice, child)
            != marker_directory(ops_dir, EntityType::ChildDevice, other),
{
    reveal_strlit("/");
    let head = ops_dir + "/"@;
    assert((head + child).len() > ops_dir.len());
    if child != other {
        assert((head + child).skip(head.len() as int) =~= child);
        assert((head + other).skip(head.len() as int) =~= other);
    }
}

} // verus!
