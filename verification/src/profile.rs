use vstd::prelude::*;
use vstd::string::StringExecFns;

use crate::probe::NetworkSnapshot;
use crate::text::{escape_seq, xml_escape};
use crate::PROFILE_CONTENT_TYPE;

verus! {

/// The profile variants the renderer can produce.
#[derive(Clone, Copy, Debug, PartialEq, Eq, Structural)]
pub enum ProfileKind {
    DnsOverTls,
    DnsOverHttps,
    HttpProxy,
}

/// Why rendering failed.
#[derive(Clone, Copy, Debug, PartialEq, Eq, Structural)]
pub enum RenderError {
    /// The snapshot's address list was empty, so there is no address to put
    /// into the profile.
    MissingAddress,
}

/// A rendered configuration profile: the identifiers generated for its
/// identifier slots in generation order, the document text, and the content
/// type it is served under.
pub struct ProfilePayload {
    pub kind: ProfileKind,
    pub uuids: Vec<String>,
    pub body: String,
    pub content_type: String,
}

/// How many identifier slots a kind's document schema has.
pub open spec fn spec_slot_count(kind: ProfileKind) -> nat {
    match kind {
        ProfileKind::DnsOverTls => 4,
        ProfileKind::DnsOverHttps => 4,
        ProfileKind::HttpProxy => 2,
    }
}

/// How many identifier slots a kind's document schema has.
pub fn slot_count(kind: ProfileKind) -> (n: usize)
    ensures
        n == spec_slot_count(kind),
{
    match kind {
        ProfileKind::DnsOverTls => 4,
        ProfileKind::DnsOverHttps => 4,
        ProfileKind::HttpProxy => 2,
    }
}

/// The DNS-over-TLS document up to its server-name field.
pub const DOT_HEAD: &'static str = "<plist version='1.0'>\n<dict>\n<key>PayloadContent</key>\n<array>\n<dict>\n<key>DNSSettings</key>\n<dict>\n<key>DNSProtocol</key>\n<string>TLS</string>\n<key>ServerAddresses</key>\n<array/>\n<key>ServerName</key>\n<string>";

/// The DNS-over-TLS document between the server name and the first
/// identifier slot: the on-demand rules and the inner payload's description,
/// display name and identifier prefix.
pub const DOT_AFTER_SERVER: &'static str = "</string>\n</dict>\n<key>OnDemandRules</key>\n<array>\n<dict>\n<key>Action</key>\n<string>Connect</string>\n<key>InterfaceTypeMatch</key>\n<string>WiFi</string>\n</dict>\n<dict>\n<key>Action</key>\n<string>Connect</string>\n<key>InterfaceTypeMatch</key>\n<string>Cellular</string>\n</dict>\n<dict>\n<key>Action</key>\n<string>Disconnect</string>\n</dict>\n</array>\n<key>PayloadDescription</key>\n<string>Configures device to use dorsum Encrypted DNS over TLS</string>\n<key>PayloadDisplayName</key>\n<string>dorsum DNS over TLS</string>\n<key>PayloadIdentifier</key>\n<string>com.apple.dnsSettings.managed.";

/// The DNS-over-HTTPS document up to its server-URL field.
pub const DOH_HEAD: &'static str = "<plist version='1.0'>\n<dict>\n<key>PayloadContent</key>\n<array>\n<dict>\n<key>DNSSettings</key>\n<dict>\n<key>DNSProtocol</key>\n<string>HTTPS</string>\n<key>ServerAddresses</key>\n<array/>\n<key>ServerURL</key>\n<string>";

/// The fixed path appended to the address in the server-URL field.
pub const URL_SUFFIX: &'static str = "/query";

/// The DNS-over-HTTPS document between the server URL and the first
/// identifier slot.
pub const DOH_AFTER_URL: &'static str = "</string>\n</dict>\n<key>OnDemandRules</key>\n<array>\n<dict>\n<key>Action</key>\n<string>Connect</string>\n<key>InterfaceTypeMatch</key>\n<string>WiFi</string>\n</dict>\n<dict>\n<key>Action</key>\n<string>Connect</string>\n<key>InterfaceTypeMatch</key>\n<string>Cellular</string>\n</dict>\n<dict>\n<key>Action</key>\n<string>Disconnect</string>\n</dict>\n</array>\n<key>PayloadDescription</key>\n<string>Configures device to use dorsum Encrypted DNS over HTTPS</string>\n<key>PayloadDisplayName</key>\n<string>dorsum DNS over HTTPS</string>\n<key>PayloadIdentifier</key>\n<string>com.apple.dnsSettings.managed.";

/// Both DNS documents between the first and second identifier slots: the
/// inner payload's type and its UUID key.
pub const DNS_MID1: &'static str = "</string>\n<key>PayloadType</key>\n<string>com.apple.dnsSettings.managed</string>\n<key>PayloadUUID</key>\n<string>";

/// Both DNS documents between the second and third identifier slots: the end
/// of the inner payload and the outer profile's description, display name and
/// identifier prefix.
pub const DNS_MID2: &'static str = "</string>\n<key>PayloadVersion</key>\n<integer>1</integer>\n<key>ProhibitDisablement</key>\n<false/>\n</dict>\n</array>\n<key>PayloadDescription</key>\n<string>Adds different encrypted DNS configurations to Big Sur (or newer) and iOS 14 (or newer) based systems</string>\n<key>PayloadDisplayName</key>\n<string>Encrypted DNS (DoH, DoT)</string>\n<key>PayloadIdentifier</key>\n<string>sh.dorsum.apple-dns.";

/// Both DNS documents between the third and fourth identifier slots: the
/// outer profile's type and its UUID key.
pub const DNS_MID3: &'static str = "</string>\n<key>PayloadRemovalDisallowed</key>\n<false/>\n<key>PayloadType</key>\n<string>Configuration</string>\n<key>PayloadUUID</key>\n<string>";

/// The common end of every document, after its last identifier slot.
pub const PLIST_TAIL: &'static str = "</string>\n<key>PayloadVersion</key>\n<integer>1</integer>\n</dict>\n</plist>\n";

/// The proxy document up to its proxy-host field.
pub const PROXY_HEAD: &'static str = "<?xml version='1.0' encoding='UTF-8'?>\n<!DOCTYPE plist PUBLIC '-//Apple//DTD PLIST 1.0//EN' 'http://www.apple.com/DTDs/PropertyList-1.0.dtd'>\n<plist version='1.0'>\n<dict>\n<key>PayloadContent</key>\n<array>\n<dict>\n<key>ProxyCaptiveLoginAllowed</key>\n<true/>\n<key>ProxyServer</key>\n<string>";

/// The proxy document between the proxy host and the first identifier slot:
/// the fixed port and the inner payload's identifier, type and UUID key.
pub const PROXY_AFTER_HOST: &'static str = "</string>\n<key>ProxyServerPort</key>\n<integer>8080</integer>\n<key>PayloadIdentifier</key>\n<string>sh.dorsum.proxy</string>\n<key>PayloadType</key>\n<string>com.apple.proxy.http.global</string>\n<key>PayloadUUID</key>\n<string>";

/// The proxy document between its two identifier slots: the end of the inner
/// payload and the outer profile's display name, identifier and UUID key.
pub const PROXY_MID: &'static str = "</string>\n<key>PayloadVersion</key>\n<integer>1</integer>\n</dict>\n</array>\n<key>PayloadDisplayName</key>\n<string>GlobalHTTPProxy</string>\n<key>PayloadIdentifier</key>\n<string>com.example.myprofile</string>\n<key>PayloadType</key>\n<string>Configuration</string>\n<key>PayloadUUID</key>\n<string>";

/// The DNS-over-TLS document for an address and four identifiers.
pub open spec fn dot_body_spec(addr: Seq<char>, ids: Seq<Seq<char>>) -> Seq<char> {
    DOT_HEAD@ + escape_seq(addr) + DOT_AFTER_SERVER@ + ids[0] + DNS_MID1@ + ids[1] + DNS_MID2@
        + ids[2] + DNS_MID3@ + ids[3] + PLIST_TAIL@
}

/// The DNS-over-HTTPS document for an address and four identifiers.
pub open spec fn doh_body_spec(addr: Seq<char>, ids: Seq<Seq<char>>) -> Seq<char> {
    DOH_HEAD@ + escape_seq(addr) + URL_SUFFIX@ + DOH_AFTER_URL@ + ids[0] + DNS_MID1@ + ids[1]
        + DNS_MID2@ + ids[2] + DNS_MID3@ + ids[3] + PLIST_TAIL@
}

/// The proxy document for an address and two identifiers.
pub open spec fn proxy_body_spec(addr: Seq<char>, ids: Seq<Seq<char>>) -> Seq<char> {
    PROXY_HEAD@ + escape_seq(addr) + PROXY_AFTER_HOST@ + ids[0] + PROXY_MID@ + ids[1]
        + PLIST_TAIL@
}

/// The document a kind renders to, for an address and the identifiers that
/// fill its slots in generation order.
pub open spec fn body_spec(kind: ProfileKind, addr: Seq<char>, ids: Seq<Seq<char>>) -> Seq<char> {
    match kind {
        ProfileKind::DnsOverTls => dot_body_spec(addr, ids),
        ProfileKind::DnsOverHttps => doh_body_spec(addr, ids),
        ProfileKind::HttpProxy => proxy_body_spec(addr, ids),
    }
}

/// Render a profile from a snapshot with the given identifiers filling the
/// kind's slots in order. Succeeds exactly when the snapshot has an address.
pub fn render_with_ids(kind: ProfileKind, snapshot: &NetworkSnapshot, ids: Vec<String>) -> (r:
    Result<ProfilePayload, RenderError>)
    requires
        ids@.len() == spec_slot_count(kind),
    ensures
        (match r {
            Ok(p) => snapshot.assigned_addresses@.len() > 0 && p.kind == kind && p.uuids == ids
                && p.body@ == body_spec(kind, snapshot.assigned_addresses@[0]@, ids.deep_view())
                && p.content_type@ == PROFILE_CONTENT_TYPE@,
            Err(e) => e == RenderError::MissingAddress && snapshot.assigned_addresses@.len() == 0,
        }),
{
    if snapshot.assigned_addresses.len() == 0 {
        return Err(RenderError::MissingAddress);
    }
    let escaped = xml_escape(snapshot.assigned_addresses[0].as_str());
    let ghost addr: Seq<char> = snapshot.assigned_addresses@[0]@;
    let mut body = String::new();
    match kind {
        ProfileKind::DnsOverTls => {
            body.append(DOT_HEAD);
            body.append(escaped.as_str());
            body.append(DOT_AFTER_SERVER);
            body.append(ids[0].as_str());
            body.append(DNS_MID1);
            body.append(ids[1].as_str());
            body.append(DNS_MID2);
            body.append(ids[2].as_str());
            body.append(DNS_MID3);
            body.append(ids[3].as_str());
            body.append(PLIST_TAIL);
            proof {
                assert(body@ =~= body_spec(kind, addr, ids.deep_view()));
            }
        },
        ProfileKind::DnsOverHttps => {
            body.append(DOH_HEAD);
            body.append(escaped.as_str());
            body.append(URL_SUFFIX);
            body.append(DOH_AFTER_URL);
            body.append(ids[0].as_str());
            body.append(DNS_MID1);
            body.append(ids[1].as_str());
            body.append(DNS_MID2);
            body.append(ids[2].as_str());
            body.append(DNS_MID3);
            body.append(ids[3].as_str());
            body.append(PLIST_TAIL);
            proof {
                assert(body@ =~= body_spec(kind, addr, ids.deep_view()));
            }
        },
        ProfileKind::HttpProxy => {
            body.append(PROXY_HEAD);
            body.append(escaped.as_str());
            body.append(PROXY_AFTER_HOST);
            body.append(ids[0].as_str());
            body.append(PROXY_MID);
            body.append(ids[1].as_str());
            body.append(PLIST_TAIL);
            proof {
                assert(body@ =~= body_spec(kind, addr, ids.deep_view()));
            }
        },
    }
    Ok(
        ProfilePayload {
            kind,
            uuids: ids,
            body,
            content_type: PROFILE_CONTENT_TYPE.to_owned(),
        },
    )
}

/// Relies on uuid::Uuid::new_v4 and its hyphenated text form: a freshly
/// drawn random identifier, rendered as 36 characters. Nothing is promised
/// of which identifier comes back.
#[verifier::external_body]
fn fresh_uuid() -> (r: String)
    ensures
        r@.len() == 36,
{
    uuid::Uuid::new_v4().hyphenated().to_string()
}

/// Render a profile from a snapshot, generating one fresh identifier per
/// slot of the kind's schema. Succeeds exactly when the snapshot has an
/// address, and the document is then the kind's template around the escaped
/// first address and the generated identifiers in generation order.
pub fn render(kind: ProfileKind, snapshot: &NetworkSnapshot) -> (r: Result<
    ProfilePayload,
    RenderError,
>)
    ensures
        (match r {
            Ok(p) => snapshot.assigned_addresses@.len() > 0 && p.kind == kind && p.uuids@.len()
                == spec_slot_count(kind) && (forall|i: int|
                0 <= i < p.uuids@.len() ==> p.uuids@[i]@.len() == 36) && p.body@ == body_spec(
                kind,
                snapshot.assigned_addresses@[0]@,
                p.uuids.deep_view(),
            ) && p.content_type@ == PROFILE_CONTENT_TYPE@,
            Err(e) => e == RenderError::MissingAddress && snapshot.assigned_addresses@.len() == 0,
        }),
{
    let count = slot_count(kind);
    let mut ids: Vec<String> = Vec::new();
    while ids.len() < count
        invariant
            ids@.len() <= count,
            count == spec_slot_count(kind),
            forall|i: int| 0 <= i < ids@.len() ==> ids@[i]@.len() == 36,
        decreases count - ids.len(),
    {
        ids.push(fresh_uuid());
    }
    render_with_ids(kind, snapshot, ids)
}

/// The fixed document text that precedes the escaped address in a kind's
/// template.
pub open spec fn address_slot_head(kind: ProfileKind) -> Seq<char> {
    match kind {
        ProfileKind::DnsOverTls => DOT_HEAD@,
        ProfileKind::DnsOverHttps => DOH_HEAD@,
        ProfileKind::HttpProxy => PROXY_HEAD@,
    }
}

/// The document text that follows the escaped address in a kind's template:
/// built from the identifiers alone, never from the address.
pub open spec fn address_slot_rest(kind: ProfileKind, ids: Seq<Seq<char>>) -> Seq<char> {
    match kind {
        ProfileKind::DnsOverTls => DOT_AFTER_SERVER@ + ids[0] + DNS_MID1@ + ids[1] + DNS_MID2@
            + ids[2] + DNS_MID3@ + ids[3] + PLIST_TAIL@,
        ProfileKind::DnsOverHttps => URL_SUFFIX@ + DOH_AFTER_URL@ + ids[0] + DNS_MID1@ + ids[1]
            + DNS_MID2@ + ids[2] + DNS_MID3@ + ids[3] + PLIST_TAIL@,
        ProfileKind::HttpProxy => PROXY_AFTER_HOST@ + ids[0] + PROXY_MID@ + ids[1] + PLIST_TAIL@,
    }
}

/// Law: a rendered document carries the snapshot's first address, XML
/// escaped, in exactly one place — the kind's designated server field. The
/// body splits as a fixed head, the escaped address, and a remainder that is
/// built from the identifiers alone.
pub proof fn lemma_address_slot(kind: ProfileKind, addr: Seq<char>, ids: Seq<Seq<char>>)
    ensures
        body_spec(kind, addr, ids) == address_slot_head(kind) + escape_seq(addr)
            + address_slot_rest(kind, ids),
{
    assert(body_spec(kind, addr, ids) =~= address_slot_head(kind) + escape_seq(addr)
        + address_slot_rest(kind, ids));
}

/// Law: the DNS-over-HTTPS document's server-URL field is the escaped
/// address followed by exactly the literal suffix "/query".
pub proof fn lemma_doh_query_suffix(addr: Seq<char>, ids: Seq<Seq<char>>)
    ensures
        body_spec(ProfileKind::DnsOverHttps, addr, ids) == DOH_HEAD@ + (escape_seq(addr)
            + "/query"@) + (DOH_AFTER_URL@ + ids[0] + DNS_MID1@ + ids[1] + DNS_MID2@ + ids[2]
            + DNS_MID3@ + ids[3] + PLIST_TAIL@),
{
    assert(body_spec(ProfileKind::DnsOverHttps, addr, ids) =~= DOH_HEAD@ + (escape_seq(addr)
        + "/query"@) + (DOH_AFTER_URL@ + ids[0] + DNS_MID1@ + ids[1] + DNS_MID2@ + ids[2]
        + DNS_MID3@ + ids[3] + PLIST_TAIL@));
}

} // verus!
