use vstd::prelude::*;
use crate::crypto::{
    digest_header, digest_header_spec, rsa_key_usable, signature_header, signature_header_spec,
    signature_value_spec, signing_string, signing_string_spec,
};
use crate::text::concat4;

verus! {

/// The host component of a URL text, as url::Url reports it.
pub uninterp spec fn url_host_of(u: Seq<char>) -> Seq<char>;

/// The path component of a URL text, as url::Url reports it.
pub uninterp spec fn url_path_of(u: Seq<char>) -> Seq<char>;

/// Whether url::Url::parse accepts the text as an absolute URL and reports a
/// host for it. Parsing is deterministic, so this is a function of the text
/// alone.
pub uninterp spec fn url_has_host(u: Seq<char>) -> bool;

/// Relies on url::Url::parse with its host_str and path accessors: for a URL
/// text that parses and names a host, returns (host, path); both are
/// functions of the URL text alone. Succeeds exactly when the text parses as
/// an absolute URL that names a host.
#[verifier::external_body]
fn url_host_and_path(u: &str) -> (r: Option<(String, String)>)
    ensures
        r is Some <==> url_has_host(u@),
        r matches Some(hp) ==> hp.0@ == url_host_of(u@) && hp.1@ == url_path_of(u@),
{
    match url::Url::parse(u) {
        Ok(parsed) => match parsed.host_str() {
            Some(h) => Some((h.to_string(), parsed.path().to_string())),
            None => None,
        },
        Err(_) => None,
    }
}

/// The key id under which a user's signatures are published.
pub open spec fn key_id_spec(app_url: Seq<char>, user_id: Seq<char>) -> Seq<char> {
    app_url + "users/"@ + user_id + "#main-key"@
}

/// Builds the key id of a user's published key.
pub fn key_id(app_url: &str, user_id: &str) -> (r: String)
    ensures
        r@ == key_id_spec(app_url@, user_id@),
{
    concat4(app_url, "users/", user_id, "#main-key")
}

/// One signed POST, ready to be carried to a remote inbox: the target URL
/// and every header value the authenticated request needs.
#[derive(Debug)]
pub struct OutboundRequest {
    pub url: String,
    pub host: String,
    pub date: String,
    pub digest: String,
    pub signature: String,
    pub body: String,
}

/// Why one recipient's request could not be prepared.
#[derive(Clone, Copy, Debug, PartialEq, Eq, Structural)]
pub enum DeliveryFailure {
    InvalidInbox,
    SigningFailed,
}

/// The prepared request for one recipient, or the reason it has none. A
/// failure here concerns this one recipient only.
#[derive(Debug)]
pub enum DeliveryItem {
    Prepared(OutboundRequest),
    Skipped(DeliveryFailure),
}

/// What one recipient's delivery item must be for a given inbox, key, date
/// and body. A request is prepared exactly when the inbox names a host and
/// the key signs, and then every header value is the exact one of the
/// signature scheme; a skipped item names the condition that failed, so a
/// failure concerns this one recipient and nothing else.
pub open spec fn prepared_for(
    item: DeliveryItem,
    inbox: Seq<char>,
    key_pem: Seq<char>,
    kid: Seq<char>,
    date: Seq<char>,
    body: Seq<char>,
) -> bool {
    match item {
        DeliveryItem::Prepared(q) => {
            &&& url_has_host(inbox)
            &&& rsa_key_usable(key_pem)
            &&& q.url@ == inbox
            &&& q.host@ == url_host_of(inbox)
            &&& q.date@ == date
            &&& q.body@ == body
            &&& q.digest@ == digest_header_spec(body)
            &&& q.signature@ == signature_header_spec(
                kid,
                signature_value_spec(
                    key_pem,
                    signing_string_spec(
                        url_path_of(inbox),
                        url_host_of(inbox),
                        date,
                        digest_header_spec(body),
                    ),
                ),
            )
        },
        DeliveryItem::Skipped(f) => match f {
            DeliveryFailure::InvalidInbox => !url_has_host(inbox),
            DeliveryFailure::SigningFailed => url_has_host(inbox) && !rsa_key_usable(key_pem),
        },
    }
}

/// Prepares the signed POST of one body to one inbox: digests the body,
/// builds the signing string from the inbox's host and path, signs it, and
/// assembles the header values. An unparsable inbox or a signing failure
/// skips this one recipient.
pub fn prepare_delivery(inbox: &str, key_pem: &str, kid: &str, date: &str, body: &str) -> (r:
    DeliveryItem)
    ensures
        prepared_for(r, inbox@, key_pem@, kid@, date@, body@),
{
    let (host, path) = match url_host_and_path(inbox) {
        Some(hp) => hp,
        None => {
            return DeliveryItem::Skipped(DeliveryFailure::InvalidInbox);
        },
    };
    let digest = digest_header(body);
    let to_sign = signing_string(path.as_str(), host.as_str(), date, digest.as_str());
    let signature = match crate::crypto::sign(key_pem, to_sign.as_str()) {
        Some(s) => s,
        None => {
            return DeliveryItem::Skipped(DeliveryFailure::SigningFailed);
        },
    };
    let header = signature_header(kid, signature.as_str());
    DeliveryItem::Prepared(
        OutboundRequest {
            url: inbox.to_owned(),
            host,
            date: date.to_owned(),
            digest,
            signature: header,
            body: body.to_owned(),
        },
    )
}

/// How a delivery fan-out went: every recipient was attempted; some attempts
/// carried a request and some failed, independently.
pub struct DeliveryReport {
    pub attempted: usize,
    pub delivered: usize,
    pub failed: usize,
}

/// Tallies per-recipient outcomes. Every outcome counts as one attempt, and
/// no outcome, however bad, is more than its own tally: a failed delivery
/// never cancels the others.
pub fn delivery_report(outcomes: &Vec<bool>) -> (r: DeliveryReport)
    ensures
        r.attempted == outcomes@.len(),
        r.delivered == outcomes@.filter((|b: bool| b)).len(),
        r.failed == outcomes@.filter((|b: bool| !b)).len(),
{
    broadcast use Seq::filter_distributes_over_add;

    let ghost ok = |b: bool| b;
    let ghost bad = |b: bool| !b;
    let n = outcomes.len();
    let mut delivered: usize = 0;
    let mut failed: usize = 0;
    let mut i: usize = 0;
    proof {
        assert(outcomes@.subrange(0, 0).filter(ok) =~= Seq::<bool>::empty());
        assert(outcomes@.subrange(0, 0).filter(bad) =~= Seq::<bool>::empty());
    }
    while i < n
        invariant
            n == outcomes@.len(),
            i <= n,
            ok == (|b: bool| b),
            bad == (|b: bool| !b),
            delivered == outcomes@.subrange(0, i as int).filter(ok).len(),
            failed == outcomes@.subrange(0, i as int).filter(bad).len(),
            delivered + failed == i,
        decreases n - i,
    {
        proof {
            let x = outcomes@[i as int];
            assert(outcomes@.subrange(0, i as int + 1) =~= outcomes@.subrange(0, i as int)
                + seq![x]);
            Seq::filter_distributes_over_add(outcomes@.subrange(0, i as int), seq![x], ok);
            Seq::filter_distributes_over_add(outcomes@.subrange(0, i as int), seq![x], bad);
            lemma_bool_filter_singleton(x, ok);
            lemma_bool_filter_singleton(x, bad);
        }
        if outcomes[i] {
            delivered = delivered + 1;
        } else {
            failed = failed + 1;
        }
        i = i + 1;
    }
    proof {
        assert(outcomes@.subrange(0, n as int) =~= outcomes@);
    }
    DeliveryReport { attempted: n, delivered, failed }
}

/// A filtered singleton is the singleton or nothing.
proof fn lemma_bool_filter_singleton(x: bool, pred: spec_fn(bool) -> bool)
    ensures
        seq![x].filter(pred) == if pred(x) {
            seq![x]
        } else {
            Seq::<bool>::empty()
        },
{
    reveal_with_fuel(Seq::<_>::filter, 2);
    assert(seq![x].drop_last() =~= Seq::<bool>::empty());
    if pred(x) {
        assert(seq![x].filter(pred) =~= seq![x]);
    } else {
        assert(seq![x].filter(pred) =~= Seq::<bool>::empty());
    }
}

} // verus!
