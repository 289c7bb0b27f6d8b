use vstd::prelude::*;
use vstd::string::{StringExecFns, StrSliceExecFns};
use crate::activity_pub::{
    json_string_array_spec, activity_note_item_json, activity_object_json_spec, follow_accept_json,
    ActivityItemParams, ActivityNoteItem, FollowAccept, FollowAcceptObject, InboxActivity, NodeInfo,
    NodeInfoLinks, NodeInfoMetadata, NodeInfoServices, NodeInfoSoftware, NodeInfoUsage,
    NodeInfoUsers, NodeIngoLinkItem, Person, PersonPublicKey, WebFinger, WebFingerLinkItem,
};
use crate::delivery::{key_id, key_id_spec, prepare_delivery, prepared_for, DeliveryItem};
use crate::directory::{find_by_id, find_by_username, UserDirectory};
use crate::error::{CommonError, CommonErrorCode};
use crate::follower::Follower;
use crate::json::json_string_spec;
use crate::note::Note;
use crate::text::{concat2, concat3, concat4, str_eq};
use crate::user::User;

verus! {

// ---------------------------------------------------------------------------
// Resource parsing for WebFinger
// ---------------------------------------------------------------------------

/// The resource with one leading `acct:` scheme removed.
pub open spec fn strip_acct_spec(s: Seq<char>) -> Seq<char> {
    if s.len() >= 5 && s.subrange(0, 5) == "acct:"@ {
        s.skip(5)
    } else {
        s
    }
}

/// Position `i` splits the resource into two non-empty parts around its only
/// `@`.
pub open spec fn is_at_split(s: Seq<char>, i: int) -> bool {
    &&& 0 < i < s.len() - 1
    &&& s[i] == '@'
    &&& forall|j: int| 0 <= j < s.len() && j != i ==> s[j] != '@'
}

/// The resource splits into exactly two non-empty parts around one `@`.
pub open spec fn acct_ok(s: Seq<char>) -> bool {
    exists|i: int| is_at_split(s, i)
}

/// The position of the only `@` of a well-formed resource.
pub open spec fn at_split(s: Seq<char>) -> int {
    choose|i: int| is_at_split(s, i)
}

/// The account name: what stands before the `@`.
pub open spec fn acct_name(s: Seq<char>) -> Seq<char> {
    s.subrange(0, at_split(s))
}

/// The account host: what stands after the `@`.
pub open spec fn acct_host(s: Seq<char>) -> Seq<char> {
    s.subrange(at_split(s) + 1, s.len() as int)
}

/// Strips one leading `acct:` scheme, if present.
fn strip_acct(resource: &str) -> (r: String)
    ensures
        r@ == strip_acct_spec(resource@),
{
    let n = resource.unicode_len();
    if n >= 5 {
        let head = resource.substring_char(0, 5);
        if str_eq(head, "acct:") {
            let rest = resource.substring_char(5, n);
            proof {
                assert(rest@ =~= resource@.skip(5));
            }
            return rest.to_owned();
        }
    }
    resource.to_owned()
}

/// Splits a resource into its two non-empty parts around its only `@`, or
/// reports that no such split exists.
fn split_acct(s: &str) -> (r: Option<(String, String)>)
    ensures
        match r {
            Some(p) => acct_ok(s@) && p.0@ == acct_name(s@) && p.1@ == acct_host(s@),
            None => !acct_ok(s@),
        },
{
    let n = s.unicode_len();
    let mut at_pos: usize = 0;
    let mut found = false;
    let mut i: usize = 0;
    while i < n
        invariant
            n == s@.len(),
            i <= n,
            !found ==> (forall|j: int| 0 <= j < i ==> s@[j] != '@'),
            found ==> (at_pos < i && s@[at_pos as int] == '@' && (forall|j: int|
                0 <= j < i && j != at_pos ==> s@[j] != '@')),
        decreases n - i,
    {
        let c = s.get_char(i);
        if c == '@' {
            if found {
                proof {
                    assert forall|k: int| !is_at_split(s@, k) by {
                        if is_at_split(s@, k) {
                            if k == at_pos as int {
                                assert(s@[i as int] != '@');
                            } else {
                                assert(s@[at_pos as int] != '@');
                            }
                        }
                    }
                }
                return None;
            }
            found = true;
            at_pos = i;
        }
        i = i + 1;
    }
    if !found {
        proof {
            assert forall|k: int| !is_at_split(s@, k) by {
                if is_at_split(s@, k) {
                    assert(s@[k] != '@');
                }
            }
        }
        return None;
    }
    if at_pos == 0 || at_pos + 1 >= n {
        proof {
            assert forall|k: int| !is_at_split(s@, k) by {
                if is_at_split(s@, k) {
                    if k != at_pos as int {
                        assert(s@[at_pos as int] != '@');
                    }
                }
            }
        }
        return None;
    }
    proof {
        assert(is_at_split(s@, at_pos as int));
        let w = at_split(s@);
        assert(is_at_split(s@, w));
        if w != at_pos as int {
            assert(s@[at_pos as int] != '@');
        }
        assert(w == at_pos as int);
    }
    let name = s.substring_char(0, at_pos);
    let host = s.substring_char(at_pos + 1, n);
    Some((name.to_owned(), host.to_owned()))
}

/// Prefixing a resource that does not already carry the `acct:` scheme with
/// it changes nothing after stripping: the prefixed and the bare resource
/// resolve identically.
pub proof fn lemma_acct_prefix_transparent(resource: Seq<char>)
    requires
        !(resource.len() >= 5 && resource.subrange(0, 5) == "acct:"@),
    ensures
        strip_acct_spec("acct:"@ + resource) == strip_acct_spec(resource),
{
    reveal_strlit("acct:");
    let t = "acct:"@ + resource;
    assert(t.subrange(0, 5) =~= "acct:"@);
    assert(t.skip(5) =~= resource);
}

/// A resource with no `@` at all, or with two or more, splits into no two
/// parts around one `@`: resolving it fails as malformed, whatever the
/// directory and the host.
pub proof fn lemma_without_single_at_no_split(s: Seq<char>)
    requires
        (forall|i: int| 0 <= i < s.len() ==> s[i] != '@') || (exists|i: int, j: int|
            0 <= i < j < s.len() && s[i] == '@' && s[j] == '@'),
    ensures
        !acct_ok(s),
{
    if forall|i: int| 0 <= i < s.len() ==> s[i] != '@' {
        assert forall|k: int| !is_at_split(s, k) by {
            if is_at_split(s, k) {
                assert(s[k] != '@');
            }
        }
    } else {
        let (i, j) = choose|i: int, j: int|
            0 <= i < j < s.len() && s[i] == '@' && s[j] == '@';
        assert forall|k: int| !is_at_split(s, k) by {
            if is_at_split(s, k) {
                if k != i {
                    assert(s[i] != '@');
                } else {
                    assert(s[j] != '@');
                }
            }
        }
    }
}

/// Why a WebFinger resolution failed: the resource was not a well-formed
/// account of this host, or the named user does not exist here.
#[derive(Clone, Copy, Debug, PartialEq, Eq, Structural)]
pub enum WebFingerError {
    MalformedResource,
    UserNotFound,
}

/// What a successful WebFinger resolution returned: the subject is the
/// stripped resource, well formed, of this host, naming a known user, and
/// the single link points at that user's actor document.
pub open spec fn web_finger_ok(
    users: Seq<User>,
    resource: Seq<char>,
    app_url: Seq<char>,
    app_url_host: Seq<char>,
    w: WebFinger,
) -> bool {
    let s = strip_acct_spec(resource);
    &&& acct_ok(s)
    &&& acct_host(s) == app_url_host
    &&& match find_by_username(users, acct_name(s)) {
        Some(u) => {
            &&& w.subject@ == s
            &&& w.links@.len() == 1
            &&& w.links@[0].rel@ == "self"@
            &&& w.links@[0].kind@ == "application/activity+json"@
            &&& w.links@[0].href@ == app_url + "users/"@ + u.id@
        },
        None => false,
    }
}

/// What a successful actor resolution returned: the Person document of the
/// user found under the username, every URL derived from the base URL and
/// the user's id, the published key the user's own.
pub open spec fn actor_ok(
    users: Seq<User>,
    username: Seq<char>,
    app_url: Seq<char>,
    p: Person,
) -> bool {
    match find_by_username(users, username) {
        Some(u) => {
            &&& p.context@.len() == 2
            &&& p.context@[0]@ == "https://www.w3.org/ns/activitystreams"@
            &&& p.context@[1]@ == "https://w3id.org/security/v1"@
            &&& p.id@ == app_url + "users/"@ + u.id@
            &&& p.kind@ == "Person"@
            &&& p.preferred_username@ == u.username@
            &&& p.inbox@ == app_url + "users/"@ + u.id@ + "/inbox"@
            &&& p.outbox@ == app_url + "users/"@ + u.id@ + "/outbox"@
            &&& p.shared_inbox@ == app_url + "inbox"@
            &&& p.public_key.id@ == key_id_spec(app_url, u.id@)
            &&& p.public_key.owner@ == app_url + "users/"@ + u.id@
            &&& p.public_key.public_key_pem@ == u.key_pair.public_key_pem@
            &&& p.featured@ == Seq::<char>::empty()
            &&& p.manually_approves_followers == false
            &&& p.discoverable == false
        },
        None => false,
    }
}

// ---------------------------------------------------------------------------
// The service
// ---------------------------------------------------------------------------

/// The federation read paths and delivery preparation: discovery documents,
/// actor documents, and signed outbound requests.
pub struct ActivityPubService {}

impl ActivityPubService {
    pub fn new() -> (r: ActivityPubService) {
        ActivityPubService {  }
    }

    /// The host-meta XRD document with the node's WebFinger template.
    pub fn host_meta(&self, app_url: &str) -> (r: String)
        ensures
            r@ == "<?xml version=\"1.0\"?>\n<XRD xmlns=\"http://docs.oasis-open.org/ns/xri/xrd-1.0\">\n<Link rel=\"lrdd\" type=\"application/xrd+xml\" template=\""@
                + app_url@ + ".well-known/webfinger?resource={uri}\" />\n</XRD>"@,
    {
        concat3(
            "<?xml version=\"1.0\"?>\n<XRD xmlns=\"http://docs.oasis-open.org/ns/xri/xrd-1.0\">\n<Link rel=\"lrdd\" type=\"application/xrd+xml\" template=\"",
            app_url,
            ".well-known/webfinger?resource={uri}\" />\n</XRD>",
        )
    }

    /// Resolves a WebFinger resource: strips one `acct:` scheme, demands
    /// exactly two non-empty parts around one `@`, demands this node's host,
    /// and looks the name up among the users. Fails with
    /// `MalformedResource` on any parse or host mismatch and with
    /// `UserNotFound` when the name is unknown, and succeeds otherwise.
    pub fn web_finger(
        &self,
        users: &UserDirectory,
        resource: &str,
        app_url: &str,
        app_url_host: &str,
    ) -> (r: Result<WebFinger, WebFingerError>)
        ensures
            ({
                let s = strip_acct_spec(resource@);
                match r {
                    Ok(w) => web_finger_ok(users@, resource@, app_url@, app_url_host@, w),
                    Err(WebFingerError::MalformedResource) => !acct_ok(s) || acct_host(s)
                        != app_url_host@,
                    Err(WebFingerError::UserNotFound) => acct_ok(s) && acct_host(s)
                        == app_url_host@ && find_by_username(users@, acct_name(s)) is None,
                }
            }),
    {
        let stripped = strip_acct(resource);
        let (name, host) = match split_acct(stripped.as_str()) {
            Some(p) => p,
            None => {
                return Err(WebFingerError::MalformedResource);
            },
        };
        if !str_eq(host.as_str(), app_url_host) {
            return Err(WebFingerError::MalformedResource);
        }
        let user = match users.find(name.as_str()) {
            Some(u) => u,
            None => {
                return Err(WebFingerError::UserNotFound);
            },
        };
        let mut links: Vec<WebFingerLinkItem> = Vec::new();
        links.push(
            WebFingerLinkItem {
                rel: "self".to_owned(),
                kind: "application/activity+json".to_owned(),
                href: concat3(app_url, "users/", user.id.as_str()),
            },
        );
        Ok(WebFinger { subject: stripped, links })
    }

    /// The NodeInfo discovery document: one link to this node's NodeInfo.
    pub fn node_info_links(&self, app_url: &str) -> (r: NodeInfoLinks)
        ensures
            r.links@.len() == 1,
            r.links@[0].rel@ == "http://nodeinfo.diaspora.software/ns/schema/2.1"@,
            r.links@[0].href@ == app_url@ + "nodeinfo/2.1"@,
    {
        let mut links: Vec<NodeIngoLinkItem> = Vec::new();
        links.push(
            NodeIngoLinkItem {
                rel: "http://nodeinfo.diaspora.software/ns/schema/2.1".to_owned(),
                href: concat2(app_url, "nodeinfo/2.1"),
            },
        );
        NodeInfoLinks { links }
    }

    /// The NodeInfo document with the live user count.
    pub fn node_info(&self, user_count: usize) -> (r: NodeInfo)
        ensures
            r.version@ == "2.1"@,
            r.software.name@ == "Gekidan"@,
            r.software.version@ == "0.1"@,
            r.protocols@.len() == 1,
            r.protocols@[0]@ == "activitypub"@,
            r.services.inbound@.len() == 0,
            r.services.outbound@.len() == 0,
            r.open_registrations == false,
            r.usage.users.total == user_count,
    {
        let mut protocols: Vec<String> = Vec::new();
        protocols.push("activitypub".to_owned());
        NodeInfo {
            version: "2.1".to_owned(),
            software: NodeInfoSoftware { name: "Gekidan".to_owned(), version: "0.1".to_owned() },
            protocols,
            services: NodeInfoServices { inbound: Vec::new(), outbound: Vec::new() },
            open_registrations: false,
            usage: NodeInfoUsage { users: NodeInfoUsers { total: user_count } },
            metadata: NodeInfoMetadata {  },
        }
    }

    /// The actor document of the user under the given username:
    /// `UserDoesNotExists` when the username is unknown, and otherwise the
    /// Person document whose id is the base URL followed by `users/` and the
    /// user's id.
    pub fn actor(&self, users: &UserDirectory, username: &String, app_url: &String) -> (r: Result<
        Person,
        CommonError,
    >)
        ensures
            match r {
                Ok(p) => actor_ok(users@, username@, app_url@, p),
                Err(e) => find_by_username(users@, username@) is None && e.spec_code()
                    == CommonErrorCode::UserDoesNotExists && e.wf(),
            },
    {
        let user = match users.find(username.as_str()) {
            Some(u) => u,
            None => {
                return Err(CommonError::new(CommonErrorCode::UserDoesNotExists));
            },
        };
        let mut context: Vec<String> = Vec::new();
        context.push("https://www.w3.org/ns/activitystreams".to_owned());
        context.push("https://w3id.org/security/v1".to_owned());
        let empty = String::new();
        proof {
            reveal_strlit("");
        }
        Ok(
            Person {
                context,
                id: concat3(app_url.as_str(), "users/", user.id.as_str()),
                kind: "Person".to_owned(),
                preferred_username: user.username.clone(),
                inbox: concat4(app_url.as_str(), "users/", user.id.as_str(), "/inbox"),
                outbox: concat4(app_url.as_str(), "users/", user.id.as_str(), "/outbox"),
                shared_inbox: concat2(app_url.as_str(), "inbox"),
                public_key: PersonPublicKey {
                    id: key_id(app_url.as_str(), user.id.as_str()),
                    owner: concat3(app_url.as_str(), "users/", user.id.as_str()),
                    public_key_pem: user.key_pair.public_key_pem.clone(),
                },
                featured: empty,
                manually_approves_followers: false,
                discoverable: false,
            },
        )
    }

    /// The canonical human-readable actor URL that the user-id route
    /// redirects to: the base URL, `@`, and the username.
    pub fn get_redirect_url_to_username(
        &self,
        users: &UserDirectory,
        user_id: &String,
        app_url: &String,
    ) -> (r: Result<String, CommonError>)
        ensures
            match r {
                Ok(s) => match find_by_id(users@, user_id@) {
                    Some(u) => s@ == app_url@ + "@"@ + u.username@,
                    None => false,
                },
                Err(e) => find_by_id(users@, user_id@) is None && e.spec_code()
                    == CommonErrorCode::UserDoesNotExists && e.wf(),
            },
    {
        let user = match users.get(user_id.as_str()) {
            Ok(u) => u,
            Err(e) => {
                return Err(e);
            },
        };
        Ok(concat3(app_url.as_str(), "@", user.username.as_str()))
    }
}

// ---------------------------------------------------------------------------
// Delivery bodies and fan-out
// ---------------------------------------------------------------------------

/// The JSON body of a note-creation delivery, over the note's fields, the
/// author, the base URL and the publication moment.
pub open spec fn note_create_body_spec(
    app_url: Seq<char>,
    user_id: Seq<char>,
    note_id: Seq<char>,
    content: Seq<char>,
    published: Seq<char>,
) -> Seq<char> {
    let to = seq!["https://www.w3.org/ns/activitystreams#Public"@];
    let cc = seq![app_url + "users/"@ + user_id + "/followers"@];
    "{\"@context\":"@ + json_string_spec("https://www.w3.org/ns/activitystreams"@) + ",\"type\":"@
        + json_string_spec("Create"@) + ",\"id\":"@ + json_string_spec(app_url + "notes/"@ + note_id)
        + ",\"published\":"@ + json_string_spec(published) + ",\"to\":"@ + json_string_array_spec(to)
        + ",\"cc\":"@ + json_string_array_spec(cc) + ",\"actor\":"@ + json_string_spec(
        app_url + "users/"@ + user_id,
    ) + ",\"object\":"@ + activity_object_json_spec(
        "https://www.w3.org/ns/activitystreams"@,
        "Note"@,
        app_url + "notes/"@ + note_id,
        published,
        to,
        cc,
        content,
    ) + "}"@
}

/// The JSON body of the Accept reply to a Follow.
pub open spec fn follow_accept_body_spec(
    app_url: Seq<char>,
    user_id: Seq<char>,
    follow_kind: Seq<char>,
    follow_actor: Seq<char>,
    follow_object: Seq<char>,
) -> Seq<char> {
    "{\"@context\":\"https://www.w3.org/ns/activitystreams\",\"summary\":\"Accepted\",\"type\":\"Accept\",\"actor\":"@
        + json_string_spec(app_url + "users/"@ + user_id) + ",\"object\":{\"type\":"@
        + json_string_spec(follow_kind) + ",\"actor\":"@ + json_string_spec(follow_actor)
        + ",\"object\":"@ + json_string_spec(follow_object) + "}}"@
}

impl ActivityPubService {
    /// Prepares the delivery of a note to every recipient: one signed POST
    /// per recipient, each prepared independently, none skipped because
    /// another failed. A recipient's request is prepared exactly when its
    /// inbox names a host and the sender's key signs. The note body, the
    /// date and the signature scheme are the same for all recipients; the
    /// target and the signature differ per inbox.
    pub fn send_note(
        &self,
        sender: &User,
        note: &Note,
        recipients: &Vec<Follower>,
        app_url: &String,
        date: &str,
        published: &str,
    ) -> (r: Vec<DeliveryItem>)
        ensures
            r@.len() == recipients@.len(),
            forall|i: int|
                0 <= i < r@.len() ==> prepared_for(
                    #[trigger] r@[i],
                    recipients@[i].inbox@,
                    sender.key_pair.private_key_pem@,
                    key_id_spec(app_url@, sender.id@),
                    date@,
                    note_create_body_spec(app_url@, sender.id@, note.id@, note.content@, published@),
                ),
    {
        let params = ActivityItemParams {
            app_url: app_url.clone(),
            user_id: sender.id.clone(),
            note_id: note.id.clone(),
            content: note.content.clone(),
            published: published.to_owned(),
        };
        let item = ActivityNoteItem::new(&params);
        let body = activity_note_item_json(&item);
        proof {
            assert(item.to.deep_view() =~= seq!["https://www.w3.org/ns/activitystreams#Public"@]);
            assert(item.cc.deep_view() =~= seq![
                app_url@ + "users/"@ + sender.id@ + "/followers"@,
            ]);
            assert(item.object.to.deep_view() =~= seq![
                "https://www.w3.org/ns/activitystreams#Public"@,
            ]);
            assert(item.object.cc.deep_view() =~= seq![
                app_url@ + "users/"@ + sender.id@ + "/followers"@,
            ]);
            assert(body@ =~= note_create_body_spec(
                app_url@,
                sender.id@,
                note.id@,
                note.content@,
                published@,
            ));
        }
        let kid = key_id(app_url.as_str(), sender.id.as_str());
        let mut out: Vec<DeliveryItem> = Vec::new();
        let n = recipients.len();
        let mut i: usize = 0;
        while i < n
            invariant
                n == recipients@.len(),
                i <= n,
                out@.len() == i,
                body@ == note_create_body_spec(
                    app_url@,
                    sender.id@,
                    note.id@,
                    note.content@,
                    published@,
                ),
                kid@ == key_id_spec(app_url@, sender.id@),
                forall|k: int|
                    0 <= k < i ==> prepared_for(
                        #[trigger] out@[k],
                        recipients@[k].inbox@,
                        sender.key_pair.private_key_pem@,
                        key_id_spec(app_url@, sender.id@),
                        date@,
                        note_create_body_spec(
                            app_url@,
                            sender.id@,
                            note.id@,
                            note.content@,
                            published@,
                        ),
                    ),
            decreases n - i,
        {
            let item = prepare_delivery(
                recipients[i].inbox.as_str(),
                sender.key_pair.private_key_pem.as_str(),
                kid.as_str(),
                date,
                body.as_str(),
            );
            out.push(item);
            i = i + 1;
        }
        out
    }

    /// Prepares the signed Accept reply to a Follow, addressed to the inbox
    /// derived from the requesting actor's URI; the request is prepared
    /// exactly when that inbox names a host and the user's key signs.
    pub fn send_follow_accept(
        &self,
        user: &User,
        activity: &InboxActivity,
        app_url: &String,
        date: &str,
    ) -> (r: DeliveryItem)
        ensures
            prepared_for(
                r,
                activity.actor@ + "/inbox"@,
                user.key_pair.private_key_pem@,
                key_id_spec(app_url@, user.id@),
                date@,
                follow_accept_body_spec(
                    app_url@,
                    user.id@,
                    activity.kind@,
                    activity.actor@,
                    activity.object.spec_object_uri(),
                ),
            ),
    {
        let accept = FollowAccept {
            context: "https://www.w3.org/ns/activitystreams".to_owned(),
            summary: "Accepted".to_owned(),
            kind: "Accept".to_owned(),
            actor: concat3(app_url.as_str(), "users/", user.id.as_str()),
            object: FollowAcceptObject {
                kind: activity.kind.clone(),
                actor: activity.actor.clone(),
                object: activity.object.object_uri().to_owned(),
            },
        };
        let body = follow_accept_json(&accept);
        proof {
            assert(body@ =~= follow_accept_body_spec(
                app_url@,
                user.id@,
                activity.kind@,
                activity.actor@,
                activity.object.spec_object_uri(),
            ));
        }
        let inbox = concat2(activity.actor.as_str(), "/inbox");
        let kid = key_id(app_url.as_str(), user.id.as_str());
        prepare_delivery(
            inbox.as_str(),
            user.key_pair.private_key_pem.as_str(),
            kid.as_str(),
            date,
            body.as_str(),
        )
    }
}

} // verus!
