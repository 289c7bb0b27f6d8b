use vstd::prelude::*;
use vstd::string::StringExecFns;
use crate::json::{json_string, json_string_spec};
use crate::text::{concat3, concat4};

verus! {

// ---------------------------------------------------------------------------
// Discovery documents
// ---------------------------------------------------------------------------

/// The WebFinger response: the resolved subject and its links.
#[derive(Debug)]
pub struct WebFinger {
    pub subject: String,
    pub links: Vec<WebFingerLinkItem>,
}

/// One link of a WebFinger response.
#[derive(Debug)]
pub struct WebFingerLinkItem {
    pub rel: String,
    pub kind: String,
    pub href: String,
}

/// The discovery document that points at the NodeInfo endpoint.
pub struct NodeInfoLinks {
    pub links: Vec<NodeIngoLinkItem>,
}

/// One link of the NodeInfo discovery document.
pub struct NodeIngoLinkItem {
    pub rel: String,
    pub href: String,
}

/// The NodeInfo document: software metadata and usage numbers.
pub struct NodeInfo {
    pub version: String,
    pub software: NodeInfoSoftware,
    pub protocols: Vec<String>,
    pub services: NodeInfoServices,
    pub open_registrations: bool,
    pub usage: NodeInfoUsage,
    pub metadata: NodeInfoMetadata,
}

pub struct NodeInfoSoftware {
    pub name: String,
    pub version: String,
}

pub struct NodeInfoServices {
    pub inbound: Vec<String>,
    pub outbound: Vec<String>,
}

pub struct NodeInfoUsage {
    pub users: NodeInfoUsers,
}

pub struct NodeInfoUsers {
    pub total: usize,
}

pub struct NodeInfoMetadata {}

// ---------------------------------------------------------------------------
// The actor document
// ---------------------------------------------------------------------------

/// The public key block of an actor document.
#[derive(Debug)]
pub struct PersonPublicKey {
    pub id: String,
    pub owner: String,
    pub public_key_pem: String,
}

/// The actor document of a local user.
#[derive(Debug)]
pub struct Person {
    pub context: Vec<String>,
    pub id: String,
    pub kind: String,
    pub preferred_username: String,
    pub inbox: String,
    pub outbox: String,
    pub shared_inbox: String,
    pub public_key: PersonPublicKey,
    pub featured: String,
    pub manually_approves_followers: bool,
    pub discoverable: bool,
}

// ---------------------------------------------------------------------------
// Outbound note activities
// ---------------------------------------------------------------------------

/// The object part of a note-creation activity.
pub struct ActivityObject {
    pub context: String,
    pub kind: String,
    pub id: String,
    pub published: String,
    pub to: Vec<String>,
    pub cc: Vec<String>,
    pub content: String,
}

/// A note-creation activity as delivered to follower inboxes.
pub struct ActivityNoteItem {
    pub context: String,
    pub kind: String,
    pub id: String,
    pub published: String,
    pub to: Vec<String>,
    pub cc: Vec<String>,
    pub actor: String,
    pub object: ActivityObject,
}

/// The inputs from which a note-creation activity is built.
pub struct ActivityItemParams {
    pub app_url: String,
    pub user_id: String,
    pub note_id: String,
    pub content: String,
    pub published: String,
}

impl ActivityNoteItem {
    /// Builds the note-creation activity: a "Create" wrapper around a "Note"
    /// object, both addressed to the public collection and to the author's
    /// followers collection.
    pub fn new(params: &ActivityItemParams) -> (r: ActivityNoteItem)
        ensures
            r.context@ == "https://www.w3.org/ns/activitystreams"@,
            r.kind@ == "Create"@,
            r.id@ == params.app_url@ + "notes/"@ + params.note_id@,
            r.published@ == params.published@,
            r.to@.len() == 1,
            r.to@[0]@ == "https://www.w3.org/ns/activitystreams#Public"@,
            r.cc@.len() == 1,
            r.cc@[0]@ == params.app_url@ + "users/"@ + params.user_id@ + "/followers"@,
            r.actor@ == params.app_url@ + "users/"@ + params.user_id@,
            r.object.context@ == "https://www.w3.org/ns/activitystreams"@,
            r.object.kind@ == "Note"@,
            r.object.id@ == params.app_url@ + "notes/"@ + params.note_id@,
            r.object.published@ == params.published@,
            r.object.to@.len() == 1,
            r.object.to@[0]@ == "https://www.w3.org/ns/activitystreams#Public"@,
            r.object.cc@.len() == 1,
            r.object.cc@[0]@ == params.app_url@ + "users/"@ + params.user_id@ + "/followers"@,
            r.object.content@ == params.content@,
    {
        let mut to: Vec<String> = Vec::new();
        to.push("https://www.w3.org/ns/activitystreams#Public".to_owned());
        let mut cc: Vec<String> = Vec::new();
        cc.push(
            concat4(
                params.app_url.as_str(),
                "users/",
                params.user_id.as_str(),
                "/followers",
            ),
        );
        let mut oto: Vec<String> = Vec::new();
        oto.push("https://www.w3.org/ns/activitystreams#Public".to_owned());
        let mut occ: Vec<String> = Vec::new();
        occ.push(
            concat4(
                params.app_url.as_str(),
                "users/",
                params.user_id.as_str(),
                "/followers",
            ),
        );
        ActivityNoteItem {
            context: "https://www.w3.org/ns/activitystreams".to_owned(),
            kind: "Create".to_owned(),
            id: concat3(params.app_url.as_str(), "notes/", params.note_id.as_str()),
            published: params.published.clone(),
            to,
            cc,
            actor: concat3(params.app_url.as_str(), "users/", params.user_id.as_str()),
            object: ActivityObject {
                context: "https://www.w3.org/ns/activitystreams".to_owned(),
                kind: "Note".to_owned(),
                id: concat3(params.app_url.as_str(), "notes/", params.note_id.as_str()),
                published: params.published.clone(),
                to: oto,
                cc: occ,
                content: params.content.clone(),
            },
        }
    }
}

/// An actor's outbox document.
pub struct ActivityNoteBox {
    pub context: String,
    pub summary: String,
    pub kind: String,
    pub total_items: i16,
    pub ordered_items: Vec<ActivityNoteItem>,
}

// ---------------------------------------------------------------------------
// Inbound activities
// ---------------------------------------------------------------------------

/// The embedded object of an inbound activity.
pub struct InboxObject {
    pub kind: String,
    pub id: String,
    pub actor: String,
    pub object: String,
}

/// The polymorphic object field of an inbound activity: a bare URI, or an
/// embedded activity body (an Undo carries the activity it retracts).
pub enum InboxObjectField {
    Reference(String),
    Embedded(InboxObject),
}

impl InboxObjectField {
    /// The URI that the activity's object names: the reference itself, or
    /// the embedded body's own object field.
    pub open spec fn spec_object_uri(&self) -> Seq<char> {
        match self {
            InboxObjectField::Reference(s) => s@,
            InboxObjectField::Embedded(o) => o.object@,
        }
    }

    /// The actor named inside an embedded object; a bare reference names
    /// none, which reads as the empty string.
    pub open spec fn spec_embedded_actor(&self) -> Seq<char> {
        match self {
            InboxObjectField::Reference(_) => Seq::empty(),
            InboxObjectField::Embedded(o) => o.actor@,
        }
    }

    pub fn object_uri(&self) -> (r: &str)
        ensures
            r@ == self.spec_object_uri(),
    {
        match self {
            InboxObjectField::Reference(s) => s.as_str(),
            InboxObjectField::Embedded(o) => o.object.as_str(),
        }
    }

    pub fn embedded_actor(&self) -> (r: &str)
        ensures
            r@ == self.spec_embedded_actor(),
    {
        match self {
            InboxObjectField::Reference(_) => {
                proof {
                    reveal_strlit("");
                    assert(""@ =~= Seq::<char>::empty());
                }
                ""
            },
            InboxObjectField::Embedded(o) => o.actor.as_str(),
        }
    }
}

/// An inbound activity: its type, id, the remote actor, and its object.
pub struct InboxActivity {
    pub kind: String,
    pub id: String,
    pub actor: String,
    pub object: InboxObjectField,
}

// ---------------------------------------------------------------------------
// The Accept reply to a Follow
// ---------------------------------------------------------------------------

/// The object part of an Accept activity: the Follow being accepted.
pub struct FollowAcceptObject {
    pub kind: String,
    pub actor: String,
    pub object: String,
}

/// The Accept activity sent back to a new follower.
pub struct FollowAccept {
    pub context: String,
    pub summary: String,
    pub kind: String,
    pub actor: String,
    pub object: FollowAcceptObject,
}

// ---------------------------------------------------------------------------
// JSON rendering of the delivered documents
// ---------------------------------------------------------------------------

/// The elements of a JSON array of strings, comma-separated.
pub open spec fn json_array_items_spec(items: Seq<Seq<char>>) -> Seq<char>
    decreases items.len(),
{
    if items.len() == 0 {
        Seq::empty()
    } else if items.len() == 1 {
        json_string_spec(items[0])
    } else {
        json_array_items_spec(items.drop_last()) + ","@ + json_string_spec(items.last())
    }
}

/// A JSON array of string literals.
pub open spec fn json_string_array_spec(items: Seq<Seq<char>>) -> Seq<char> {
    "["@ + json_array_items_spec(items) + "]"@
}

/// Renders a JSON array of string literals.
pub fn json_string_array(items: &Vec<String>) -> (r: String)
    ensures
        r@ == json_string_array_spec(items.deep_view()),
{
    let mut s = "[".to_owned();
    let n = items.len();
    let mut i: usize = 0;
    proof {
        assert(items.deep_view().take(0) =~= Seq::<Seq<char>>::empty());
        assert(s@ =~= "["@ + json_array_items_spec(items.deep_view().take(0)));
    }
    while i < n
        invariant
            n == items@.len(),
            items.deep_view().len() == items@.len(),
            forall|k: int| 0 <= k < n ==> items.deep_view()[k] == items@[k]@,
            i <= n,
            s@ == "["@ + json_array_items_spec(items.deep_view().take(i as int)),
        decreases n - i,
    {
        if i > 0 {
            s.append(",");
        }
        let piece = json_string(items[i].as_str());
        s.append(piece.as_str());
        proof {
            let dv = items.deep_view();
            assert(dv.take(i as int + 1).drop_last() =~= dv.take(i as int));
            assert(dv.take(i as int + 1).last() == items@[i as int]@);
            assert(s@ =~= "["@ + json_array_items_spec(dv.take(i as int + 1)));
        }
        i = i + 1;
    }
    s.append("]");
    proof {
        assert(items.deep_view().take(n as int) =~= items.deep_view());
        assert(s@ =~= json_string_array_spec(items.deep_view()));
    }
    s
}

/// The JSON text of a note object, keys in delivery order.
pub open spec fn activity_object_json_spec(context: Seq<char>, kind: Seq<char>, id: Seq<char>,
    published: Seq<char>, to: Seq<Seq<char>>, cc: Seq<Seq<char>>, content: Seq<char>) -> Seq<
    char,
> {
    "{\"@context\":"@ + json_string_spec(context) + ",\"type\":"@ + json_string_spec(kind)
        + ",\"id\":"@ + json_string_spec(id) + ",\"published\":"@ + json_string_spec(published)
        + ",\"to\":"@ + json_string_array_spec(to) + ",\"cc\":"@ + json_string_array_spec(cc)
        + ",\"content\":"@ + json_string_spec(content) + "}"@
}

/// Renders the object part of a note-creation activity.
pub fn activity_object_json(o: &ActivityObject) -> (r: String)
    ensures
        r@ == activity_object_json_spec(
            o.context@,
            o.kind@,
            o.id@,
            o.published@,
            o.to.deep_view(),
            o.cc.deep_view(),
            o.content@,
        ),
{
    let mut s = "{\"@context\":".to_owned();
    let piece = json_string(o.context.as_str());
    s.append(piece.as_str());
    s.append(",\"type\":");
    let piece = json_string(o.kind.as_str());
    s.append(piece.as_str());
    s.append(",\"id\":");
    let piece = json_string(o.id.as_str());
    s.append(piece.as_str());
    s.append(",\"published\":");
    let piece = json_string(o.published.as_str());
    s.append(piece.as_str());
    s.append(",\"to\":");
    let piece = json_string_array(&o.to);
    s.append(piece.as_str());
    s.append(",\"cc\":");
    let piece = json_string_array(&o.cc);
    s.append(piece.as_str());
    s.append(",\"content\":");
    let piece = json_string(o.content.as_str());
    s.append(piece.as_str());
    s.append("}");
    proof {
        assert(s@ =~= activity_object_json_spec(
            o.context@,
            o.kind@,
            o.id@,
            o.published@,
            o.to.deep_view(),
            o.cc.deep_view(),
            o.content@,
        ));
    }
    s
}

/// The JSON text of a note-creation activity, keys in delivery order.
pub open spec fn activity_note_item_json_spec(it: ActivityNoteItem) -> Seq<char> {
    "{\"@context\":"@ + json_string_spec(it.context@) + ",\"type\":"@ + json_string_spec(it.kind@)
        + ",\"id\":"@ + json_string_spec(it.id@) + ",\"published\":"@ + json_string_spec(
        it.published@,
    ) + ",\"to\":"@ + json_string_array_spec(it.to.deep_view()) + ",\"cc\":"@
        + json_string_array_spec(it.cc.deep_view()) + ",\"actor\":"@ + json_string_spec(it.actor@)
        + ",\"object\":"@ + activity_object_json_spec(
        it.object.context@,
        it.object.kind@,
        it.object.id@,
        it.object.published@,
        it.object.to.deep_view(),
        it.object.cc.deep_view(),
        it.object.content@,
    ) + "}"@
}

/// Renders a note-creation activity for delivery.
pub fn activity_note_item_json(it: &ActivityNoteItem) -> (r: String)
    ensures
        r@ == activity_note_item_json_spec(*it),
{
    let mut s = "{\"@context\":".to_owned();
    let piece = json_string(it.context.as_str());
    s.append(piece.as_str());
    s.append(",\"type\":");
    let piece = json_string(it.kind.as_str());
    s.append(piece.as_str());
    s.append(",\"id\":");
    let piece = json_string(it.id.as_str());
    s.append(piece.as_str());
    s.append(",\"published\":");
    let piece = json_string(it.published.as_str());
    s.append(piece.as_str());
    s.append(",\"to\":");
    let piece = json_string_array(&it.to);
    s.append(piece.as_str());
    s.append(",\"cc\":");
    let piece = json_string_array(&it.cc);
    s.append(piece.as_str());
    s.append(",\"actor\":");
    let piece = json_string(it.actor.as_str());
    s.append(piece.as_str());
    s.append(",\"object\":");
    let piece = activity_object_json(&it.object);
    s.append(piece.as_str());
    s.append("}");
    proof {
        assert(s@ =~= activity_note_item_json_spec(*it));
    }
    s
}

/// The JSON text of an Accept activity, keys in delivery order, built from
/// the sender, the accepted activity's fields and the node's base URL.
pub open spec fn follow_accept_json_spec(
    app_url: Seq<char>,
    user_id: Seq<char>,
    follow_kind: Seq<char>,
    follow_actor: Seq<char>,
    follow_object: Seq<char>,
) -> Seq<char> {
    "{\"@context\":\"https://www.w3.org/ns/activitystreams\",\"summary\":\"Accepted\",\"type\":\"Accept\",\"actor\":"@
        + json_string_spec(app_url + "users/"@ + user_id) + ",\"object\":{\"type\":"@
        + json_string_spec(follow_kind) + ",\"actor\":"@ + json_string_spec(follow_actor)
        + ",\"object\":"@ + json_string_spec(follow_object) + "}}"@
}

/// Renders an Accept activity for delivery.
pub fn follow_accept_json(a: &FollowAccept) -> (r: String)
    requires
        a.context@ == "https://www.w3.org/ns/activitystreams"@,
        a.summary@ == "Accepted"@,
        a.kind@ == "Accept"@,
    ensures
        r@ == "{\"@context\":\"https://www.w3.org/ns/activitystreams\",\"summary\":\"Accepted\",\"type\":\"Accept\",\"actor\":"@
            + json_string_spec(a.actor@) + ",\"object\":{\"type\":"@ + json_string_spec(
            a.object.kind@,
        ) + ",\"actor\":"@ + json_string_spec(a.object.actor@) + ",\"object\":"@
            + json_string_spec(a.object.object@) + "}}"@,
{
    let mut s =
        "{\"@context\":\"https://www.w3.org/ns/activitystreams\",\"summary\":\"Accepted\",\"type\":\"Accept\",\"actor\":".to_owned();
    let piece = json_string(a.actor.as_str());
    s.append(piece.as_str());
    s.append(",\"object\":{\"type\":");
    let piece = json_string(a.object.kind.as_str());
    s.append(piece.as_str());
    s.append(",\"actor\":");
    let piece = json_string(a.object.actor.as_str());
    s.append(piece.as_str());
    s.append(",\"object\":");
    let piece = json_string(a.object.object.as_str());
    s.append(piece.as_str());
    s.append("}}");
    proof {
        assert(s@ =~= "{\"@context\":\"https://www.w3.org/ns/activitystreams\",\"summary\":\"Accepted\",\"type\":\"Accept\",\"actor\":"@
            + json_string_spec(a.actor@) + ",\"object\":{\"type\":"@ + json_string_spec(
            a.object.kind@,
        ) + ",\"actor\":"@ + json_string_spec(a.object.actor@) + ",\"object\":"@
            + json_string_spec(a.object.object@) + "}}"@);
    }
    s
}

} // verus!
