//! The devices that operations target.

use vstd::prelude::*;

verus! {

/// Whether an entity is the gateway's own device or a device behind it.
#[derive(Debug, Clone, Copy, PartialEq, Eq, Structural)]
pub enum EntityType {
    MainDevice,
    ChildDevice,
}

/// What the entity registry knows of a device. It is looked up once for each
/// incoming message, and not held afterwards.
#[derive(Debug, Clone)]
pub struct EntityRecord {
    pub topic_id: String,
    pub external_id: String,
    pub entity_type: EntityType,
}

/// The part of an entity's data that the handling of an operation needs.
///
/// An operation may take time while others run, so the data is captured once,
/// before the work starts, and belongs to that one operation from then on.
#[derive(Debug, Clone)]
pub struct Entity {
    pub topic_id: String,
    pub external_id: String,
    pub smartrest_publish_topic: String,
}

/// The mathematical content of an [`Entity`].
pub struct EntityView {
    pub topic_id: Seq<char>,
    pub external_id: Seq<char>,
    pub smartrest_publish_topic: Seq<char>,
}

impl View for Entity {
    type V = EntityView;

    open spec fn view(&self) -> EntityView {
        EntityView {
            topic_id: self.topic_id@,
            external_id: self.external_id@,
            smartrest_publish_topic: self.smartrest_publish_topic@,
        }
    }
}

/// The topic on which status records for an entity go to the cloud: the main
/// device's is `<prefix>/s/us`; a child device's is that, a slash and the
/// child's external identifier.
pub open spec fn smartrest_publish_topic(
    prefix: Seq<char>,
    entity_type: EntityType,
    external_id: Seq<char>,
) -> Seq<char> {
    match entity_type {
        EntityType::MainDevice => prefix + "/s/us"@,
        EntityType::ChildDevice => prefix + "/s/us"@ + "/"@ + external_id,
    }
}

impl EntityRecord {
    /// Computes the topic on which status records for this entity go to the
    /// cloud, under the cloud topic prefix `c8y_prefix`.
    pub fn smartrest_publish_topic(&self, c8y_prefix: &str) -> (topic: String)
        ensures
            topic@ == smartrest_publish_topic(c8y_prefix@, self.entity_type, self.external_id@),
    {
        let mut topic = String::from_str(c8y_prefix);
        topic.append("/s/us");
        match self.entity_type {
            EntityType::MainDevice => {},
            EntityType::ChildDevice => {
                topic.append("/");
                topic.append(self.external_id.as_str());
            },
        }
        topic
    }
}

impl Entity {
    /// Captures what the handling of an operation needs of `record`.
    pub fn snapshot(record: &EntityRecord, c8y_prefix: &str) -> (entity: Entity)
        ensures
            entity@.topic_id == record.topic_id@,
            entity@.external_id == record.external_id@,
            entity@.smartrest_publish_topic == smartrest_publish_topic(
                c8y_prefix@,
                record.entity_type,
                record.external_id@,
            ),
    {
        Entity {
            topic_id: record.topic_id.clone(),
            external_id: record.external_id.clone(),
            smartrest_publish_topic: record.smartrest_publish_topic(c8y_prefix),
        }
    }
}

/// A child device's status topic is never the main device's, and two child
/// devices share a status topic only if they share their external identifier.
pub proof fn lemma_child_topic_is_its_own(prefix: Seq<char>, child: Seq<char>, other: Seq<char>)
    ensures
        smartrest_publish_topic(prefix, EntityType::ChildDevice, child) != smartrest_publish_topic(
            prefix,
            EntityType::MainDevice,
            other,
        ),
        child != other ==> smartrest_publish_topic(prefix, EntityType::ChildDevice, child)
            != smartrest_publish_topic(prefix, EntityType::ChildDevice, other),
{
    reveal_strlit("/");
    let main = prefix + "/s/us"@;
    let head = main + "/"@;
    assert((head + child).len() > main.len());
    if child != other {
        assert((head + child).skip(head.len() as int) =~= child);
        assert((head + other).skip(head.len() as int) =~= other);
    }
}

} // verus!
