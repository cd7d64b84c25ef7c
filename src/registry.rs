//! The handler registry: schema-type identifiers mapped to message kinds, and the
//! resolution of a topic to the handler for the schema that it names.

use vstd::prelude::*;
use vstd::string::*;
use crate::handlers::{MessageHandler, MessageKind};
use crate::topic::{
    conventional_topic, extract_message_type_from_topic_key, lemma_conventional_topic_names_schema,
    slash_free, topic_schema,
};

verus! {

/// The identifiers in `entries` mapped to their kinds; a later entry overrides an
/// earlier one with the same identifier.
pub open spec fn map_of(entries: Seq<(String, MessageKind)>) -> Map<Seq<char>, MessageKind>
    decreases entries.len(),
{
    if entries.len() == 0 {
        Map::empty()
    } else {
        map_of(entries.drop_last()).insert(entries.last().0@, entries.last().1)
    }
}

/// The routes that a new registry holds.
pub open spec fn default_routes() -> Map<Seq<char>, MessageKind> {
    Map::empty().insert("text-PlainText"@, MessageKind::TextPlainText).insert(
        "image-compressed-ImageJPEG"@,
        MessageKind::ImageCompressedJpeg,
    ).insert("image-uncompressed-ImageRawAny"@, MessageKind::ImageRawAny).insert(
        "image-uncompressed-ImageYUV420"@,
        MessageKind::ImageYuv420,
    ).insert("image-uncompressed-ImageRGB888"@, MessageKind::ImageRgb888).insert(
        "image-uncompressed-ImageRGBA8888"@,
        MessageKind::ImageRgba8888,
    ).insert("detection-box-Boxes2DAxisAligned"@, MessageKind::Boxes2DAxisAligned)
}

/// The kind that topic `t` resolves to under `routes`: the route of the identifier
/// that the topic names, if it names one and that identifier has a route.
pub open spec fn resolution(routes: Map<Seq<char>, MessageKind>, t: Seq<char>) -> Option<MessageKind> {
    match topic_schema(t) {
        Some(id) => if routes.contains_key(id) {
            Some(routes[id])
        } else {
            None
        },
        None => None,
    }
}

/// Maps each schema-type identifier to the kind of handler that decodes it.
pub struct MessageTypeRegistry {
    entries: Vec<(String, MessageKind)>,
}

impl View for MessageTypeRegistry {
    type V = Map<Seq<char>, MessageKind>;

    closed spec fn view(&self) -> Map<Seq<char>, MessageKind> {
        map_of(self.entries@)
    }
}

impl MessageTypeRegistry {
    /// A registry with a route for each schema that this bridge handles.
    pub fn new() -> (r: Self)
        ensures
            r@ == default_routes(),
    {
        let mut registry = MessageTypeRegistry { entries: Vec::new() };
        proof {
            assert(registry@ == Map::<Seq<char>, MessageKind>::empty());
        }
        registry.register("text-PlainText", MessageKind::TextPlainText);
        registry.register("image-compressed-ImageJPEG", MessageKind::ImageCompressedJpeg);
        registry.register("image-uncompressed-ImageRawAny", MessageKind::ImageRawAny);
        registry.register("image-uncompressed-ImageYUV420", MessageKind::ImageYuv420);
        registry.register("image-uncompressed-ImageRGB888", MessageKind::ImageRgb888);
        registry.register("image-uncompressed-ImageRGBA8888", MessageKind::ImageRgba8888);
        registry.register("detection-box-Boxes2DAxisAligned", MessageKind::Boxes2DAxisAligned);
        registry
    }

    /// Routes `message_type` to `kind`, replacing an earlier route for it.
    pub fn register(&mut self, message_type: &str, kind: MessageKind)
        ensures
            final(self)@ == old(self)@.insert(message_type@, kind),
    {
        let ghost before = self.entries@;
        self.entries.push((String::from_str(message_type), kind));
        proof {
            assert(self.entries@.drop_last() =~= before);
        }
    }

    /// The kind routed to `message_type`, if any.
    pub fn lookup(&self, message_type: &str) -> (r: Option<MessageKind>)
        ensures
            r == (if self@.contains_key(message_type@) {
                Some(self@[message_type@])
            } else {
                None
            }),
    {
        let key = String::from_str(message_type);
        let ghost s = self.entries@;
        let mut j = self.entries.len();
        assert(s.take(j as int) =~= s);
        while j > 0
            invariant
                s == self.entries@,
                j <= s.len(),
                key@ == message_type@,
                map_of(s).contains_key(key@) == map_of(s.take(j as int)).contains_key(key@),
                map_of(s).contains_key(key@) ==> map_of(s)[key@] == map_of(s.take(j as int))[key@],
            decreases j,
        {
            assert(s.take(j as int).drop_last() =~= s.take(j - 1));
            if self.entries[j - 1].0 == key {
                return Some(self.entries[j - 1].1);
            }
            j = j - 1;
        }
        assert(s.take(0) =~= Seq::<(String, MessageKind)>::empty());
        None
    }

    /// The handler for the schema that `topic_key` names; `None` when the topic does
    /// not follow the naming convention or names a schema with no route.
    pub fn create_handler_from_topic_key(&self, topic_key: &str) -> (r: Option<MessageHandler>)
        ensures
            match resolution(self@, topic_key@) {
                Some(kind) => r is Some && r->Some_0.kind() == kind,
                None => r is None,
            },
    {
        let message_type = extract_message_type_from_topic_key(topic_key)?;
        let kind = self.lookup(message_type)?;
        Some(MessageHandler::for_kind(kind))
    }
}

/// A topic `a/b/c/make87_messages-<id>/<rest>`, with no separator in `a`, `b`, `c`
/// or the non-empty `id`, resolves to the kind routed to `id`, and to none when `id`
/// has no route.
pub proof fn lemma_conventional_topic_resolves(
    routes: Map<Seq<char>, MessageKind>,
    a: Seq<char>,
    b: Seq<char>,
    c: Seq<char>,
    id: Seq<char>,
    rest: Seq<char>,
)
    requires
        slash_free(a),
        slash_free(b),
        slash_free(c),
        slash_free(id),
        id.len() > 0,
    ensures
        resolution(routes, conventional_topic(a, b, c, id, rest)) == if routes.contains_key(id) {
            Some(routes[id])
        } else {
            None
        },
{
    lemma_conventional_topic_names_schema(a, b, c, id, rest);
}

} // verus!
