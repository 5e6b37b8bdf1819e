//! The connection-string handle: the string as given, the scheme it uses,
//! and a mutable credential overlay edited by the auth setters. The overlay
//! is applied to the backing driver's options when a client is built from
//! the handle.

use vstd::prelude::*;

use mongodb::bson::raw::RawDocumentBuf;

use crate::bson::bson_t;
use crate::raw_doc::{doc_elems, raw_doc_clone, raw_doc_pairs, ElemView};
use crate::read_concern::mongoc_read_concern_t;
use crate::read_pref::mongoc_read_prefs_t;
use crate::strutil::{str_eq, str_has_prefix};
use crate::write_concern::mongoc_write_concern_t;

verus! {

/// The credential sub-structure the auth setters edit. Absent fields
/// default-construct on the first set.
pub struct UriCredential {
    pub username: Option<String>,
    pub password: Option<String>,
    pub source: Option<String>,
    pub mechanism: Option<String>,
    pub mechanism_properties: Option<RawDocumentBuf>,
}

/// What a credential holds, as the contracts speak of it.
pub struct CredentialView {
    pub username: Option<Seq<char>>,
    pub password: Option<Seq<char>>,
    pub source: Option<Seq<char>>,
    pub mechanism: Option<Seq<char>>,
    pub mechanism_properties: Option<Seq<(Seq<char>, ElemView)>>,
}

impl CredentialView {
    /// The state a first set finds: every field absent.
    pub open spec fn fresh() -> CredentialView {
        CredentialView {
            username: None,
            password: None,
            source: None,
            mechanism: None,
            mechanism_properties: None,
        }
    }
}

impl View for UriCredential {
    type V = CredentialView;

    open spec fn view(&self) -> CredentialView {
        CredentialView {
            username: match self.username {
                Some(ref s) => Some(s@),
                None => None,
            },
            password: match self.password {
                Some(ref s) => Some(s@),
                None => None,
            },
            source: match self.source {
                Some(ref s) => Some(s@),
                None => None,
            },
            mechanism: match self.mechanism {
                Some(ref s) => Some(s@),
                None => None,
            },
            mechanism_properties: match self.mechanism_properties {
                Some(ref d) => Some(doc_elems(*d)),
                None => None,
            },
        }
    }
}

impl UriCredential {
    fn fresh() -> (c: UriCredential)
        ensures
            c@ == CredentialView::fresh(),
    {
        UriCredential {
            username: None,
            password: None,
            source: None,
            mechanism: None,
            mechanism_properties: None,
        }
    }
}

/// The parsed connection string plus its credential overlay.
#[allow(non_camel_case_types)]
pub struct mongoc_uri_t {
    pub uri: String,
    pub srv: bool,
    pub credential: Option<UriCredential>,
}

/// What a URI handle holds.
pub struct UriView {
    pub uri: Seq<char>,
    pub srv: bool,
    pub credential: Option<CredentialView>,
}

impl View for mongoc_uri_t {
    type V = UriView;

    open spec fn view(&self) -> UriView {
        UriView {
            uri: self.uri@,
            srv: self.srv,
            credential: match self.credential {
                Some(ref c) => Some(c@),
                None => None,
            },
        }
    }
}

/// Whether the string names the SRV scheme.
pub open spec fn spec_is_srv(u: Seq<char>) -> bool {
    u.len() >= 14 && u.subrange(0, 14) == "mongodb+srv://"@
}

impl mongoc_uri_t {
    /// The scheme flag records what the string says.
    pub open spec fn wf(&self) -> bool {
        self.srv == spec_is_srv(self.uri@)
    }
}

/// A handle over the given connection string, with no credential overlay
/// yet. The string itself is validated by the backing driver when a client
/// is built from the handle.
pub fn mongoc_uri_new(uri: &str) -> (u: mongoc_uri_t)
    ensures
        u@.uri == uri@,
        u@.credential is None,
        u.wf(),
{
    proof {
        reveal_strlit("mongodb+srv://");
    }
    let srv = str_has_prefix(uri, "mongodb+srv://");
    mongoc_uri_t { uri: uri.to_owned(), srv, credential: None }
}

/// As `mongoc_uri_new`; the error record is untouched, since the string is
/// validated only when a client is built.
pub fn mongoc_uri_new_with_error(uri: &str, error: &mut crate::error::bson_error_t) -> (u:
    mongoc_uri_t)
    ensures
        u@.uri == uri@,
        u@.credential is None,
        u.wf(),
        *final(error) == *old(error),
{
    mongoc_uri_new(uri)
}

/// A deep copy of the handle, overlay included.
pub fn mongoc_uri_copy(uri: &mongoc_uri_t) -> (r: mongoc_uri_t)
    ensures
        r@ == uri@,
        uri.wf() ==> r.wf(),
{
    let credential = match &uri.credential {
        Some(c) => Some(
            UriCredential {
                username: match &c.username {
                    Some(s) => Some(s.clone()),
                    None => None,
                },
                password: match &c.password {
                    Some(s) => Some(s.clone()),
                    None => None,
                },
                source: match &c.source {
                    Some(s) => Some(s.clone()),
                    None => None,
                },
                mechanism: match &c.mechanism {
                    Some(s) => Some(s.clone()),
                    None => None,
                },
                mechanism_properties: match &c.mechanism_properties {
                    Some(d) => Some(raw_doc_clone(d)),
                    None => None,
                },
            },
        ),
        None => None,
    };
    mongoc_uri_t { uri: uri.uri.clone(), srv: uri.srv, credential }
}

/// The connection string as given.
pub fn mongoc_uri_get_string<'a>(uri: &'a mongoc_uri_t) -> (r: &'a str)
    ensures
        r@ == uri@.uri,
{
    uri.uri.as_str()
}

/// The literal SRV scheme when the string uses it, nothing otherwise.
pub fn mongoc_uri_get_service(uri: &mongoc_uri_t) -> (r: Option<&str>)
    requires
        uri.wf(),
    ensures
        (r is Some) == spec_is_srv(uri@.uri),
        r matches Some(s) ==> s@ == "mongodb+srv://"@,
{
    if uri.srv {
        Some("mongodb+srv://")
    } else {
        None
    }
}

/// The credential after one field is set: existing fields stay, the named
/// one now holds the value.
pub open spec fn cred_base(c: Option<CredentialView>) -> CredentialView {
    match c {
        Some(v) => v,
        None => CredentialView::fresh(),
    }
}

/// Sets the username, default-constructing the credential on first use.
pub fn mongoc_uri_set_username(uri: &mut mongoc_uri_t, username: &str) -> (ok: bool)
    ensures
        ok,
        final(uri)@.uri == old(uri)@.uri,
        final(uri)@.srv == old(uri)@.srv,
        final(uri)@.credential == Some(
            CredentialView { username: Some(username@), ..cred_base(old(uri)@.credential) },
        ),
{
    let mut c = match uri.credential.take() {
        Some(c) => c,
        None => UriCredential::fresh(),
    };
    c.username = Some(username.to_owned());
    uri.credential = Some(c);
    true
}

/// Sets the password, default-constructing the credential on first use.
pub fn mongoc_uri_set_password(uri: &mut mongoc_uri_t, password: &str) -> (ok: bool)
    ensures
        ok,
        final(uri)@.uri == old(uri)@.uri,
        final(uri)@.srv == old(uri)@.srv,
        final(uri)@.credential == Some(
            CredentialView { password: Some(password@), ..cred_base(old(uri)@.credential) },
        ),
{
    let mut c = match uri.credential.take() {
        Some(c) => c,
        None => UriCredential::fresh(),
    };
    c.password = Some(password.to_owned());
    uri.credential = Some(c);
    true
}

/// Sets the auth source, default-constructing the credential on first use.
pub fn mongoc_uri_set_auth_source(uri: &mut mongoc_uri_t, source: &str) -> (ok: bool)
    ensures
        ok,
        final(uri)@.uri == old(uri)@.uri,
        final(uri)@.srv == old(uri)@.srv,
        final(uri)@.credential == Some(
            CredentialView { source: Some(source@), ..cred_base(old(uri)@.credential) },
        ),
{
    let mut c = match uri.credential.take() {
        Some(c) => c,
        None => UriCredential::fresh(),
    };
    c.source = Some(source.to_owned());
    uri.credential = Some(c);
    true
}

/// The mechanism names the backing driver parses.
pub open spec fn known_mechanism(m: Seq<char>) -> bool {
    ||| m == "SCRAM-SHA-1"@
    ||| m == "SCRAM-SHA-256"@
    ||| m == "MONGODB-CR"@
    ||| m == "MONGODB-X509"@
    ||| m == "GSSAPI"@
    ||| m == "PLAIN"@
    ||| m == "MONGODB-AWS"@
    ||| m == "MONGODB-OIDC"@
}

/// Sets the auth mechanism. A name the backing driver does not parse is
/// refused and the handle left unchanged.
pub fn mongoc_uri_set_auth_mechanism(uri: &mut mongoc_uri_t, mechanism: &str) -> (ok: bool)
    ensures
        ok == known_mechanism(mechanism@),
        !ok ==> *final(uri) == *old(uri),
        ok ==> final(uri)@.uri == old(uri)@.uri && final(uri)@.srv == old(uri)@.srv
            && final(uri)@.credential == Some(
            CredentialView { mechanism: Some(mechanism@), ..cred_base(old(uri)@.credential) },
        ),
{
    let known = str_eq(mechanism, "SCRAM-SHA-1") || str_eq(mechanism, "SCRAM-SHA-256") || str_eq(
        mechanism,
        "MONGODB-CR",
    ) || str_eq(mechanism, "MONGODB-X509") || str_eq(mechanism, "GSSAPI") || str_eq(
        mechanism,
        "PLAIN",
    ) || str_eq(mechanism, "MONGODB-AWS") || str_eq(mechanism, "MONGODB-OIDC");
    if !known {
        return false;
    }
    let mut c = match uri.credential.take() {
        Some(c) => c,
        None => UriCredential::fresh(),
    };
    c.mechanism = Some(mechanism.to_owned());
    uri.credential = Some(c);
    true
}

/// Sets the mechanism properties from a document, default-constructing the
/// credential on first use. Succeeds exactly when the document's element
/// bytes parse; otherwise the handle is unchanged.
pub fn mongoc_uri_set_mechanism_properties(uri: &mut mongoc_uri_t, properties: &bson_t) -> (ok:
    bool)
    ensures
        ok == properties@.iterates,
        !ok ==> *final(uri) == *old(uri),
        ok ==> final(uri)@.uri == old(uri)@.uri && final(uri)@.srv == old(uri)@.srv
            && final(uri)@.credential == Some(
            CredentialView {
                mechanism_properties: Some(properties@.elems),
                ..cred_base(old(uri)@.credential)
            },
        ),
{
    match raw_doc_pairs(&properties.doc) {
        Some(_) => {},
        None => {
            return false;
        },
    }
    let mut c = match uri.credential.take() {
        Some(c) => c,
        None => UriCredential::fresh(),
    };
    c.mechanism_properties = Some(raw_doc_clone(&properties.doc));
    uri.credential = Some(c);
    true
}

/// The username of the overlay, when one has been set.
pub fn mongoc_uri_get_username<'a>(uri: &'a mongoc_uri_t) -> (r: Option<&'a str>)
    ensures
        r matches Some(s) ==> uri@.credential matches Some(c) && c.username == Some(s@),
        r is None ==> (uri@.credential matches Some(c) ==> c.username is None) || uri@.credential
            is None,
{
    match &uri.credential {
        Some(c) => match &c.username {
            Some(s) => Some(s.as_str()),
            None => None,
        },
        None => None,
    }
}

/// The password of the overlay, when one has been set.
pub fn mongoc_uri_get_password<'a>(uri: &'a mongoc_uri_t) -> (r: Option<&'a str>)
    ensures
        r matches Some(s) ==> uri@.credential matches Some(c) && c.password == Some(s@),
        r is None ==> (uri@.credential matches Some(c) ==> c.password is None) || uri@.credential
            is None,
{
    match &uri.credential {
        Some(c) => match &c.password {
            Some(s) => Some(s.as_str()),
            None => None,
        },
        None => None,
    }
}

/// The auth source of the overlay, when one has been set.
pub fn mongoc_uri_get_auth_source<'a>(uri: &'a mongoc_uri_t) -> (r: Option<&'a str>)
    ensures
        r matches Some(s) ==> uri@.credential matches Some(c) && c.source == Some(s@),
        r is None ==> (uri@.credential matches Some(c) ==> c.source is None) || uri@.credential
            is None,
{
    match &uri.credential {
        Some(c) => match &c.source {
            Some(s) => Some(s.as_str()),
            None => None,
        },
        None => None,
    }
}

/// The auth mechanism of the overlay, when one has been set.
pub fn mongoc_uri_get_auth_mechanism<'a>(uri: &'a mongoc_uri_t) -> (r: Option<&'a str>)
    ensures
        r matches Some(s) ==> uri@.credential matches Some(c) && c.mechanism == Some(s@),
        r is None ==> (uri@.credential matches Some(c) ==> c.mechanism is None)
            || uri@.credential is None,
{
    match &uri.credential {
        Some(c) => match &c.mechanism {
            Some(s) => Some(s.as_str()),
            None => None,
        },
        None => None,
    }
}

/// Unsupported: the shim holds no parsed option table to read a database
/// name from.
pub fn mongoc_uri_get_database(uri: &mongoc_uri_t) -> (r: Option<&str>)
    ensures
        r is None,
{
    let _ = uri;
    None
}

/// Unsupported: the shim holds no parsed option table to render.
pub fn mongoc_uri_get_options(uri: &mongoc_uri_t) -> (r: Option<&bson_t>)
    ensures
        r is None,
{
    let _ = uri;
    None
}

/// Unsupported: compressors are not translated; the handle is unchanged.
pub fn mongoc_uri_set_compressors(uri: &mut mongoc_uri_t, compressor: &str) -> (ok: bool)
    ensures
        !ok,
        *final(uri) == *old(uri),
{
    let _ = compressor;
    false
}

/// Unsupported: compressors are not translated.
pub fn mongoc_uri_get_compressors(uri: &mongoc_uri_t) -> (r: Option<&bson_t>)
    ensures
        r is None,
{
    let _ = uri;
    None
}

/// Unsupported: the shim holds no parsed option table to read a replica-set
/// name from.
pub fn mongoc_uri_get_replica_set(uri: &mongoc_uri_t) -> (r: Option<&str>)
    ensures
        r is None,
{
    let _ = uri;
    None
}

/// Unsupported: generic option edits are not translated; the handle is
/// unchanged.
pub fn mongoc_uri_set_option_as_bool(uri: &mut mongoc_uri_t, option: &str, val: bool) -> (ok: bool)
    ensures
        !ok,
        *final(uri) == *old(uri),
{
    let _ = (option, val);
    false
}

/// Unsupported: generic option edits are not translated; the handle is
/// unchanged.
pub fn mongoc_uri_set_option_as_utf8(uri: &mut mongoc_uri_t, option: &str, val: &str) -> (ok: bool)
    ensures
        !ok,
        *final(uri) == *old(uri),
{
    let _ = (option, val);
    false
}

/// Unsupported: generic option edits are not translated; the handle is
/// unchanged.
pub fn mongoc_uri_set_option_as_int32(uri: &mut mongoc_uri_t, option: &str, val: i32) -> (ok: bool)
    ensures
        !ok,
        *final(uri) == *old(uri),
{
    let _ = (option, val);
    false
}

/// Unsupported: the fallback is returned as the option table is not held.
pub fn mongoc_uri_get_option_as_utf8<'a>(
    uri: &mongoc_uri_t,
    option: &str,
    fallback: &'a str,
) -> (r: &'a str)
    ensures
        r@ == fallback@,
{
    let _ = (uri, option);
    fallback
}

/// Unsupported: the option table is not held.
pub fn mongoc_uri_has_option(uri: &mongoc_uri_t, option: &str) -> (r: bool)
    ensures
        !r,
{
    let _ = (uri, option);
    false
}

/// Unsupported: a read concern is carried per operation, not on the URI.
pub fn mongoc_uri_get_read_concern(uri: &mongoc_uri_t) -> (r: Option<&mongoc_read_concern_t>)
    ensures
        r is None,
{
    let _ = uri;
    None
}

/// Unsupported: a read concern is carried per operation, not on the URI.
pub fn mongoc_uri_set_read_concern(uri: &mut mongoc_uri_t, rc: &mongoc_read_concern_t) -> (ok:
    bool)
    ensures
        !ok,
        *final(uri) == *old(uri),
{
    let _ = rc;
    false
}

/// Unsupported: a write concern is carried per operation, not on the URI.
pub fn mongoc_uri_get_write_concern(uri: &mongoc_uri_t) -> (r: Option<&mongoc_write_concern_t>)
    ensures
        r is None,
{
    let _ = uri;
    None
}

/// Unsupported: a write concern is carried per operation, not on the URI.
pub fn mongoc_uri_set_write_concern(uri: &mut mongoc_uri_t, wc: &mongoc_write_concern_t) -> (ok:
    bool)
    ensures
        !ok,
        *final(uri) == *old(uri),
{
    let _ = wc;
    false
}

/// Unsupported: a read preference is carried per operation, not on the URI.
pub fn mongoc_uri_get_read_prefs_t(uri: &mongoc_uri_t) -> (r: Option<&mongoc_read_prefs_t>)
    ensures
        r is None,
{
    let _ = uri;
    None
}

/// Unsupported: a read preference is carried per operation, not on the URI.
pub fn mongoc_uri_set_read_prefs_t(uri: &mut mongoc_uri_t, rp: &mongoc_read_prefs_t) -> (ok: bool)
    ensures
        !ok,
        *final(uri) == *old(uri),
{
    let _ = rp;
    false
}

/// Releases the handle.
pub fn mongoc_uri_destroy(uri: mongoc_uri_t) {
    let _ = uri;
}

/// Credential assembly: after the four auth setters run in turn on a handle
/// with no overlay, the credential holds exactly the four values.
pub proof fn lemma_credential_assembly(
    u: Seq<char>,
    p: Seq<char>,
    s: Seq<char>,
    m: Seq<char>,
)
    ensures
        (CredentialView {
            mechanism: Some(m),
            ..(CredentialView {
                source: Some(s),
                ..(CredentialView {
                    password: Some(p),
                    ..(CredentialView { username: Some(u), ..CredentialView::fresh() })
                })
            })
        }) == (CredentialView {
            username: Some(u),
            password: Some(p),
            source: Some(s),
            mechanism: Some(m),
            mechanism_properties: None,
        }),
{
}


pub const MONGOC_URI_APPNAME: &'static str = "appname";

pub const MONGOC_URI_AUTHMECHANISM: &'static str = "authmechanism";

pub const MONGOC_URI_AUTHMECHANISMPROPERTIES: &'static str = "authmechanismproperties";

pub const MONGOC_URI_AUTHSOURCE: &'static str = "authsource";

pub const MONGOC_URI_CANONICALIZEHOSTNAME: &'static str = "canonicalizehostname";

pub const MONGOC_URI_CONNECTTIMEOUTMS: &'static str = "connecttimeoutms";

pub const MONGOC_URI_COMPRESSORS: &'static str = "compressors";

pub const MONGOC_URI_DIRECTCONNECTION: &'static str = "directconnection";

pub const MONGOC_URI_GSSAPISERVICENAME: &'static str = "gssapiservicename";

pub const MONGOC_URI_HEARTBEATFREQUENCYMS: &'static str = "heartbeatfrequencyms";

pub const MONGOC_URI_JOURNAL: &'static str = "journal";

pub const MONGOC_URI_LOADBALANCED: &'static str = "loadbalanced";

pub const MONGOC_URI_LOCALTHRESHOLDMS: &'static str = "localthresholdms";

pub const MONGOC_URI_MAXIDLETIMEMS: &'static str = "maxidletimems";

pub const MONGOC_URI_MAXPOOLSIZE: &'static str = "maxpoolsize";

pub const MONGOC_URI_MAXSTALENESSSECONDS: &'static str = "maxstalenessseconds";

pub const MONGOC_URI_MINPOOLSIZE: &'static str = "minpoolsize";

pub const MONGOC_URI_READCONCERNLEVEL: &'static str = "readconcernlevel";

pub const MONGOC_URI_READPREFERENCE: &'static str = "readpreference";

pub const MONGOC_URI_READPREFERENCETAGS: &'static str = "readpreferencetags";

pub const MONGOC_URI_REPLICASET: &'static str = "replicaset";

pub const MONGOC_URI_RETRYREADS: &'static str = "retryreads";

pub const MONGOC_URI_RETRYWRITES: &'static str = "retrywrites";

pub const MONGOC_URI_SAFE: &'static str = "safe";

pub const MONGOC_URI_SERVERSELECTIONTIMEOUTMS: &'static str = "serverselectiontimeoutms";

pub const MONGOC_URI_SERVERSELECTIONTRYONCE: &'static str = "serverselectiontryonce";

pub const MONGOC_URI_SLAVEOK: &'static str = "slaveok";

pub const MONGOC_URI_SOCKETCHECKINTERVALMS: &'static str = "socketcheckintervalms";

pub const MONGOC_URI_SOCKETTIMEOUTMS: &'static str = "sockettimeoutms";

pub const MONGOC_URI_TLS: &'static str = "tls";

pub const MONGOC_URI_TLSCERTIFICATEKEYFILE: &'static str = "tlscertificatekeyfile";

pub const MONGOC_URI_TLSCERTIFICATEKEYFILEPASSWORD: &'static str = "tlscertificatekeyfilepassword";

pub const MONGOC_URI_TLSCAFILE: &'static str = "tlscafile";

pub const MONGOC_URI_TLSALLOWINVALIDCERTIFICATES: &'static str = "tlsallowinvalidcertificates";

pub const MONGOC_URI_TLSALLOWINVALIDHOSTNAMES: &'static str = "tlsallowinvalidhostnames";

pub const MONGOC_URI_TLSINSECURE: &'static str = "tlsinsecure";

pub const MONGOC_URI_TLSDISABLECERTIFICATEREVOCATIONCHECK: &'static str =
    "tlsdisablecertificaterevocationcheck";

pub const MONGOC_URI_TLSDISABLEOCSPENDPOINTCHECK: &'static str = "tlsdisableocspendpointcheck";

pub const MONGOC_URI_W: &'static str = "w";

pub const MONGOC_URI_WAITQUEUEMULTIPLE: &'static str = "waitqueuemultiple";

pub const MONGOC_URI_WAITQUEUETIMEOUTMS: &'static str = "waitqueuetimeoutms";

pub const MONGOC_URI_WTIMEOUTMS: &'static str = "wtimeoutms";

pub const MONGOC_URI_ZLIBCOMPRESSIONLEVEL: &'static str = "zlibcompressionlevel";

} // verus!
