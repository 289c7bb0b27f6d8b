use vstd::prelude::*;
use crate::activity_pub::{InboxActivity, NodeInfo, NodeInfoLinks, Person, WebFinger};
use crate::activity_pub_service::{
    acct_host, acct_name, acct_ok, actor_ok, follow_accept_body_spec, strip_acct_spec,
    web_finger_ok, ActivityPubService, WebFingerError,
};
use crate::clock::http_date_now;
use crate::config::AppConfig;
use crate::delivery::{key_id_spec, prepared_for, DeliveryItem};
use crate::directory::{find_by_id, find_by_username, UserDirectory};
use crate::error::{CommonError, CommonErrorCode};
use crate::follower::{without_actor, Follower, FollowerStore};
use crate::text::{concat2, str_eq};

verus! {

/// The query parameters of a WebFinger request.
pub struct WebFingerParams {
    pub resource: String,
}

/// What processing one inbound activity did to the follower store, and the
/// contract of the reply it asks the caller to deliver.
///
/// - A `Follow` appends exactly one follower record for the target user and
///   hands back one prepared Accept, addressed to the requester's inbox.
/// - An `Undo` removes exactly the records whose actor is the one named in
///   the embedded object, and hands back no reply.
/// - On any error the store is untouched.
pub open spec fn inbox_transition(
    app_url: Seq<char>,
    users: Seq<crate::user::User>,
    before: Seq<Follower>,
    after: Seq<Follower>,
    user_id: Seq<char>,
    activity: InboxActivity,
    r: Result<Option<DeliveryItem>, CommonError>,
) -> bool {
    match r {
        Ok(reply) => match find_by_id(users, user_id) {
            Some(u) => {
                if activity.kind@ == "Follow"@ {
                    &&& after.len() == before.len() + 1
                    &&& after.drop_last() == before
                    &&& after.last().user_id@ == u.id@
                    &&& after.last().actor@ == activity.actor@
                    &&& after.last().object@ == activity.object.spec_object_uri()
                    &&& after.last().inbox@ == activity.actor@ + "/inbox"@
                    &&& match reply {
                        Some(item) => exists|d: Seq<char>|
                            prepared_for(
                                item,
                                activity.actor@ + "/inbox"@,
                                u.key_pair.private_key_pem@,
                                key_id_spec(app_url, u.id@),
                                d,
                                follow_accept_body_spec(
                                    app_url,
                                    u.id@,
                                    activity.kind@,
                                    activity.actor@,
                                    activity.object.spec_object_uri(),
                                ),
                            ),
                        None => false,
                    }
                } else if activity.kind@ == "Undo"@ {
                    &&& after == without_actor(before, u.id@, activity.object.spec_embedded_actor())
                    &&& reply is None
                } else {
                    false
                }
            },
            None => false,
        },
        Err(e) => {
            &&& e.wf()
            &&& after == before
            &&& match find_by_id(users, user_id) {
                Some(_) => activity.kind@ != "Follow"@ && activity.kind@ != "Undo"@
                    && e.spec_code() == CommonErrorCode::UnexpectedError,
                None => e.spec_code() == CommonErrorCode::UserDoesNotExists,
            }
        },
    }
}

/// The federation use case: the read paths and the inbox state machine,
/// against the user directory and the follower store handed in by the
/// caller.
pub struct ActivityPubUseCase {
    pub app_url: String,
    pub app_url_host: String,
    pub activity_pub_service: ActivityPubService,
}

impl ActivityPubUseCase {
    pub fn new(app_config: &AppConfig, activity_pub_service: ActivityPubService) -> (r:
        ActivityPubUseCase)
        ensures
            r.app_url@ == app_config.app_url@,
            r.app_url_host@ == app_config.app_url_host@,
    {
        ActivityPubUseCase {
            app_url: app_config.app_url.clone(),
            app_url_host: app_config.app_url_host.clone(),
            activity_pub_service,
        }
    }

    pub fn host_meta(&self) -> (r: String)
        ensures
            r@ == "<?xml version=\"1.0\"?>\n<XRD xmlns=\"http://docs.oasis-open.org/ns/xri/xrd-1.0\">\n<Link rel=\"lrdd\" type=\"application/xrd+xml\" template=\""@
                + self.app_url@ + ".well-known/webfinger?resource={uri}\" />\n</XRD>"@,
    {
        self.activity_pub_service.host_meta(self.app_url.as_str())
    }

    pub fn web_finger(&self, users: &UserDirectory, params: &WebFingerParams) -> (r: Result<
        WebFinger,
        WebFingerError,
    >)
        ensures
            ({
                let s = strip_acct_spec(params.resource@);
                match r {
                    Ok(w) => web_finger_ok(
                        users@,
                        params.resource@,
                        self.app_url@,
                        self.app_url_host@,
                        w,
                    ),
                    Err(WebFingerError::MalformedResource) => !acct_ok(s) || acct_host(s)
                        != self.app_url_host@,
                    Err(WebFingerError::UserNotFound) => acct_ok(s) && acct_host(s)
                        == self.app_url_host@ && find_by_username(users@, acct_name(s)) is None,
                }
            }),
    {
        self.activity_pub_service.web_finger(
            users,
            params.resource.as_str(),
            self.app_url.as_str(),
            self.app_url_host.as_str(),
        )
    }

    pub fn node_info_links(&self) -> (r: NodeInfoLinks)
        ensures
            r.links@.len() == 1,
            r.links@[0].rel@ == "http://nodeinfo.diaspora.software/ns/schema/2.1"@,
            r.links@[0].href@ == self.app_url@ + "nodeinfo/2.1"@,
    {
        self.activity_pub_service.node_info_links(self.app_url.as_str())
    }

    pub fn node_info(&self, users: &UserDirectory) -> (r: NodeInfo)
        ensures
            r.version@ == "2.1"@,
            r.software.name@ == "Gekidan"@,
            r.software.version@ == "0.1"@,
            r.protocols@.len() == 1,
            r.protocols@[0]@ == "activitypub"@,
            r.services.inbound@.len() == 0,
            r.services.outbound@.len() == 0,
            r.open_registrations == false,
            r.usage.users.total == users@.len(),
    {
        self.activity_pub_service.node_info(users.count())
    }

    pub fn actor_by_username(&self, users: &UserDirectory, username: &String) -> (r: Result<
        Person,
        CommonError,
    >)
        ensures
            match r {
                Ok(p) => actor_ok(users@, username@, self.app_url@, p),
                Err(e) => find_by_username(users@, username@) is None && e.spec_code()
                    == CommonErrorCode::UserDoesNotExists && e.wf(),
            },
    {
        self.activity_pub_service.actor(users, username, &self.app_url)
    }

    pub fn redirect_to_username(&self, users: &UserDirectory, user_id: &String) -> (r: Result<
        String,
        CommonError,
    >)
        ensures
            match r {
                Ok(s) => find_by_id(users@, user_id@) matches Some(u) && s@ == self.app_url@ + "@"@
                    + u.username@,
                Err(e) => find_by_id(users@, user_id@) is None && e.spec_code()
                    == CommonErrorCode::UserDoesNotExists && e.wf(),
            },
    {
        self.activity_pub_service.get_redirect_url_to_username(users, user_id, &self.app_url)
    }

    /// The inbox state machine. Dispatches on the activity type: a `Follow`
    /// stores the new follower first and only then prepares the Accept reply
    /// for the caller to deliver; an `Undo` removes the named actor's
    /// records and replies with nothing; anything else is rejected
    /// untouched.
    pub fn process_inbox_activity(
        &self,
        users: &UserDirectory,
        followers: &mut FollowerStore,
        user_id: &String,
        activity: &InboxActivity,
    ) -> (r: Result<Option<DeliveryItem>, CommonError>)
        requires
            old(followers).wf(),
            old(followers).can_add(),
        ensures
            final(followers).wf(),
            inbox_transition(
                self.app_url@,
                users@,
                old(followers)@,
                final(followers)@,
                user_id@,
                *activity,
                r,
            ),
    {
        let user = match users.get(user_id.as_str()) {
            Ok(u) => u,
            Err(e) => {
                return Err(e);
            },
        };
        if str_eq(activity.kind.as_str(), "Follow") {
            let inbox = concat2(activity.actor.as_str(), "/inbox");
            let follower = Follower::new(
                user.id.as_str(),
                activity.actor.as_str(),
                activity.object.object_uri(),
                inbox.as_str(),
            );
            let _id = followers.add(&follower);
            proof {
                assert(followers@.drop_last() =~= old(followers)@);
            }
            let date = http_date_now();
            let item = self.activity_pub_service.send_follow_accept(
                &user,
                activity,
                &self.app_url,
                date.as_str(),
            );
            Ok(Some(item))
        } else if str_eq(activity.kind.as_str(), "Undo") {
            followers.delete_matching(user.id.as_str(), activity.object.embedded_actor());
            Ok(None)
        } else {
            Err(CommonError::new(CommonErrorCode::UnexpectedError))
        }
    }
}

} // verus!
