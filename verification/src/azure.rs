//! Azure: the connection options of the resource, managed identities and
//! their token lifetimes, and Key Vault lockers, whose secrets are stored
//! under base64url names.

use vstd::prelude::*;
use base64ct::{Base64UrlUnpadded, Encoding};
use crate::env::{env_view, lookup, lookup_spec, EnvView};
use crate::nats::opt_view;
use crate::text::{push_str, strip_prefix, strip_prefix_spec};

verus! {

/// The service principal the resource signs in as.
#[derive(Debug, Clone)]
pub struct CredentialOptions {
    /// `AZURE_TENANT_ID`.
    pub tenant_id: String,
    /// `AZURE_CLIENT_ID`.
    pub client_id: String,
    /// `AZURE_CLIENT_SECRET`.
    pub client_secret: String,
}

/// How the Azure resource connects.
#[derive(Debug, Clone)]
pub struct ConnectOptions {
    /// The service principal, when all of its settings are given; without
    /// it the developer tools' sign-in is used.
    pub credential: Option<CredentialOptions>,
    /// `AZURE_KEYVAULT_URL`, if set.
    pub keyvault_url: Option<String>,
}

/// The service principal an environment gives, by views: its tenant, client
/// id and secret when all three are set.
pub open spec fn credential_spec(env: EnvView) -> Option<(Seq<char>, Seq<char>, Seq<char>)> {
    match (lookup_spec(env, "AZURE_TENANT_ID"@), lookup_spec(env, "AZURE_CLIENT_ID"@), lookup_spec(env, "AZURE_CLIENT_SECRET"@)) {
        (Some(t), Some(c), Some(s)) => Some((t, c, s)),
        _ => None,
    }
}

impl ConnectOptions {
    /// Reads the options from an environment snapshot; this cannot fail,
    /// since a partly set service principal counts as none.
    pub fn from_vars(vars: &Vec<(String, String)>) -> (o: ConnectOptions)
        ensures
            opt_view(o.keyvault_url) == lookup_spec(env_view(vars@), "AZURE_KEYVAULT_URL"@),
            match o.credential {
                Some(c) => credential_spec(env_view(vars@)) == Some((c.tenant_id@, c.client_id@, c.client_secret@)),
                None => credential_spec(env_view(vars@)) is None,
            },
    {
        let tenant = lookup(vars, "AZURE_TENANT_ID");
        let client = lookup(vars, "AZURE_CLIENT_ID");
        let secret = lookup(vars, "AZURE_CLIENT_SECRET");
        let credential = match (tenant, client, secret) {
            (Some(tenant_id), Some(client_id), Some(client_secret)) => Some(
                CredentialOptions { tenant_id, client_id, client_secret },
            ),
            _ => None,
        };
        ConnectOptions { credential, keyvault_url: lookup(vars, "AZURE_KEYVAULT_URL") }
    }
}

/// A user-assigned managed identity, by its client id.
pub struct AzIdentity {
    name: String,
}

/// Seconds from `now` until `expires_on` (seconds since the epoch, taken by
/// magnitude), or 0 once it has passed.
pub open spec fn expires_in_spec(expires_on: i64, now: u64) -> u64 {
    let magnitude: int = if expires_on < 0 { -expires_on } else { expires_on as int };
    if magnitude > now { (magnitude - now) as u64 } else { 0 }
}

impl AzIdentity {
    /// The identity with client id `name`.
    pub fn new(name: String) -> (i: AzIdentity)
        ensures
            i.spec_name() == name@,
    {
        AzIdentity { name }
    }

    /// The client id.
    pub closed spec fn spec_name(&self) -> Seq<char> {
        self.name@
    }

    /// The client id.
    pub fn name(&self) -> (n: &str)
        ensures
            n@ == self.spec_name(),
    {
        self.name.as_str()
    }

    /// How long a token that expires at `expires_on` lives from `now`.
    pub fn expires_in(expires_on: i64, now: u64) -> (s: u64)
        ensures
            s == expires_in_spec(expires_on, now),
    {
        let magnitude: u64 = if expires_on < 0 {
            if expires_on == i64::MIN {
                9223372036854775808u64
            } else {
                (-expires_on) as u64
            }
        } else {
            expires_on as u64
        };
        if magnitude > now { magnitude - now } else { 0 }
    }
}

/// The base64url character of the six-bit value `n`: `A`-`Z`, `a`-`z`,
/// `0`-`9`, `-`, `_`.
pub open spec fn b64url_char(n: int) -> char {
    if n < 26 {
        (65 + n) as char
    } else if n < 52 {
        (97 + n - 26) as char
    } else if n < 62 {
        (48 + n - 52) as char
    } else if n == 62 {
        '-'
    } else {
        '_'
    }
}

/// The six-bit value of a base64url character (the inverse of [`b64url_char`]).
pub open spec fn b64url_value(c: char) -> int {
    let u = c as u32;
    if 65 <= u <= 90 {
        u - 65
    } else if 97 <= u <= 122 {
        u - 97 + 26
    } else if 48 <= u <= 57 {
        u - 48 + 52
    } else if c == '-' {
        62
    } else {
        63
    }
}

/// The unpadded base64url text of `bytes` (`Base64UrlUnpadded::encode_string`):
/// each group of three bytes becomes four characters of six bits each, and
/// a last group of one or two bytes becomes two or three characters, its
/// spare low bits zero.
pub open spec fn base64url(bytes: Seq<u8>) -> Seq<char>
    decreases bytes.len(),
{
    if bytes.len() == 0 {
        Seq::empty()
    } else if bytes.len() == 1 {
        let b0 = bytes[0] as int;
        seq![b64url_char(b0 / 4), b64url_char((b0 % 4) * 16)]
    } else if bytes.len() == 2 {
        let (b0, b1) = (bytes[0] as int, bytes[1] as int);
        seq![b64url_char(b0 / 4), b64url_char((b0 % 4) * 16 + b1 / 16), b64url_char((b1 % 16) * 4)]
    } else {
        let (b0, b1, b2) = (bytes[0] as int, bytes[1] as int, bytes[2] as int);
        seq![
            b64url_char(b0 / 4),
            b64url_char((b0 % 4) * 16 + b1 / 16),
            b64url_char((b1 % 16) * 4 + b2 / 64),
            b64url_char(b2 % 64),
        ] + base64url(bytes.subrange(3, bytes.len() as int))
    }
}

/// The bytes that base64url text stands for, read group by group.
pub open spec fn base64url_bytes(text: Seq<char>) -> Seq<u8>
    decreases text.len(),
{
    if text.len() < 2 {
        Seq::empty()
    } else {
        let (n0, n1) = (b64url_value(text[0]), b64url_value(text[1]));
        if text.len() == 2 {
            seq![(n0 * 4 + n1 / 16) as u8]
        } else {
            let n2 = b64url_value(text[2]);
            if text.len() == 3 {
                seq![(n0 * 4 + n1 / 16) as u8, ((n1 % 16) * 16 + n2 / 4) as u8]
            } else {
                let n3 = b64url_value(text[3]);
                seq![(n0 * 4 + n1 / 16) as u8, ((n1 % 16) * 16 + n2 / 4) as u8, ((n2 % 4) * 64 + n3) as u8]
                    + base64url_bytes(text.subrange(4, text.len() as int))
            }
        }
    }
}

/// Each six-bit value reads back from its character.
proof fn lemma_b64url_char_value(n: int)
    requires
        0 <= n < 64,
    ensures
        b64url_value(b64url_char(n)) == n,
{
    if n < 26 {
        assert((((65 + n) as char) as u32) == 65 + n);
    } else if n < 52 {
        assert((((97 + n - 26) as char) as u32) == 97 + n - 26);
    } else if n < 62 {
        assert((((48 + n - 52) as char) as u32) == 48 + n - 52);
    }
}

/// The six-bit pieces of three bytes give the bytes back.
proof fn lemma_group_roundtrip(b0: int, b1: int, b2: int)
    requires
        0 <= b0 < 256,
        0 <= b1 < 256,
        0 <= b2 < 256,
    ensures
        0 <= b0 / 4 < 64,
        0 <= (b0 % 4) * 16 + b1 / 16 < 64,
        0 <= (b1 % 16) * 4 + b2 / 64 < 64,
        0 <= b2 % 64 < 64,
        (b0 / 4) * 4 + ((b0 % 4) * 16 + b1 / 16) / 16 == b0,
        (((b0 % 4) * 16 + b1 / 16) % 16) * 16 + ((b1 % 16) * 4 + b2 / 64) / 4 == b1,
        (((b1 % 16) * 4 + b2 / 64) % 4) * 64 + b2 % 64 == b2,
        ((b0 % 4) * 16) / 16 == b0 % 4,
        (((b1 % 16) * 4) % 4) == 0,
        ((b0 % 4) * 16) % 16 == 0,
        (((b0 % 4) * 16 + b1 / 16) % 16) * 16 + ((b1 % 16) * 4) / 4 == b1,
{
    assert(0 <= b0 / 4 < 64) by (nonlinear_arith) requires 0 <= b0 < 256;
    assert(0 <= (b0 % 4) * 16 + b1 / 16 < 64) by (nonlinear_arith) requires 0 <= b0 < 256, 0 <= b1 < 256;
    assert(0 <= (b1 % 16) * 4 + b2 / 64 < 64) by (nonlinear_arith) requires 0 <= b1 < 256, 0 <= b2 < 256;
    assert((b0 / 4) * 4 + ((b0 % 4) * 16 + b1 / 16) / 16 == b0) by (nonlinear_arith)
        requires 0 <= b0 < 256, 0 <= b1 < 256;
    assert((((b0 % 4) * 16 + b1 / 16) % 16) * 16 + ((b1 % 16) * 4 + b2 / 64) / 4 == b1) by (nonlinear_arith)
        requires 0 <= b0 < 256, 0 <= b1 < 256, 0 <= b2 < 256;
    assert((((b1 % 16) * 4 + b2 / 64) % 4) * 64 + b2 % 64 == b2) by (nonlinear_arith)
        requires 0 <= b1 < 256, 0 <= b2 < 256;
    assert(((b0 % 4) * 16) / 16 == b0 % 4) by (nonlinear_arith) requires 0 <= b0 < 256;
    assert(((b1 % 16) * 4) % 4 == 0) by (nonlinear_arith) requires 0 <= b1 < 256;
    assert(((b0 % 4) * 16) % 16 == 0) by (nonlinear_arith) requires 0 <= b0 < 256;
    assert((((b0 % 4) * 16 + b1 / 16) % 16) * 16 + ((b1 % 16) * 4) / 4 == b1) by (nonlinear_arith)
        requires 0 <= b0 < 256, 0 <= b1 < 256;
}

/// Reading base64url text back gives the bytes it encodes.
pub proof fn lemma_base64url_roundtrip(bytes: Seq<u8>)
    ensures
        base64url_bytes(base64url(bytes)) == bytes,
    decreases bytes.len(),
{
    let t = base64url(bytes);
    if bytes.len() == 0 {
    } else if bytes.len() == 1 {
        let b0 = bytes[0] as int;
        lemma_group_roundtrip(b0, 0, 0);
        lemma_b64url_char_value(b0 / 4);
        lemma_b64url_char_value((b0 % 4) * 16);
        assert(base64url_bytes(t) =~= bytes);
    } else if bytes.len() == 2 {
        let (b0, b1) = (bytes[0] as int, bytes[1] as int);
        lemma_group_roundtrip(b0, b1, 0);
        lemma_b64url_char_value(b0 / 4);
        lemma_b64url_char_value((b0 % 4) * 16 + b1 / 16);
        lemma_b64url_char_value((b1 % 16) * 4);
        assert(base64url_bytes(t) =~= bytes);
    } else {
        let (b0, b1, b2) = (bytes[0] as int, bytes[1] as int, bytes[2] as int);
        lemma_group_roundtrip(b0, b1, b2);
        lemma_b64url_char_value(b0 / 4);
        lemma_b64url_char_value((b0 % 4) * 16 + b1 / 16);
        lemma_b64url_char_value((b1 % 16) * 4 + b2 / 64);
        lemma_b64url_char_value(b2 % 64);
        let rest = bytes.subrange(3, bytes.len() as int);
        lemma_base64url_roundtrip(rest);
        assert(t.subrange(4, t.len() as int) =~= base64url(rest));
        assert(base64url_bytes(t) =~= bytes);
    }
}

/// No two byte strings have the same base64url text.
pub proof fn lemma_base64url_injective(v: Seq<u8>, w: Seq<u8>)
    requires
        base64url(v) == base64url(w),
    ensures
        v == w,
{
    lemma_base64url_roundtrip(v);
    lemma_base64url_roundtrip(w);
}

/// Encodes `bytes` as unpadded base64url (`Base64UrlUnpadded::encode_string`).
#[verifier::external_body]
fn base64url_encode(bytes: &[u8]) -> (s: String)
    ensures
        s@ == base64url(bytes@),
{
    Base64UrlUnpadded::encode_string(bytes)
}

/// Decodes unpadded base64url text (`Base64UrlUnpadded::decode_vec`). The
/// decoder is strict: it succeeds exactly on the texts that the encoder
/// produces, with the bytes they encode.
#[verifier::external_body]
fn base64url_decode(text: &str) -> (r: Option<Vec<u8>>)
    ensures
        r matches Some(v) ==> base64url(v@) == text@,
        r is None ==> forall|v: Seq<u8>| base64url(v) != text@,
{
    Base64UrlUnpadded::decode_vec(text).ok()
}

/// Why a Key Vault request failed.
#[derive(Debug, Clone)]
pub enum VaultError {
    /// The client has no Key Vault.
    NotConfigured,
    /// The vault answered with an error other than not found.
    GetFailed(String),
    /// The secret could not be read from the response.
    Unreadable(String),
    /// The secret's value is not base64url.
    Undecodable,
}

/// What the vault answered for a secret.
#[derive(Debug, Clone)]
pub enum SecretResponse {
    /// HTTP 404.
    NotFound,
    /// Another failure, described.
    Failed(String),
    /// The response body did not read as a secret, described.
    Unreadable(String),
    /// The secret, with its value when it has one.
    Secret(Option<String>),
}

/// A locker: the secrets of one identifier in the vault.
#[derive(Debug, Clone)]
pub struct AzLocker {
    identifier: String,
}

/// The vault name of secret `secret_id` in locker `identifier`: the
/// base64url of the UTF-8 of `identifier-secret_id`.
pub open spec fn secret_name_spec(identifier: Seq<char>, secret_id: Seq<char>) -> Seq<char> {
    base64url(vstd::utf8::encode_utf8(identifier + seq!['-'] + secret_id))
}

/// The ids of a locker among the vault's secret ids: those that start with
/// `identifier-`, without that prefix, in order.
pub open spec fn locker_ids_spec(identifier: Seq<char>, ids: Seq<Option<Seq<char>>>) -> Seq<Seq<char>>
    decreases ids.len(),
{
    if ids.len() == 0 {
        Seq::empty()
    } else {
        let rest = locker_ids_spec(identifier, ids.drop_last());
        match ids.last() {
            Some(id) => match strip_prefix_spec(id, identifier + seq!['-']) {
                Some(s) => rest.push(s),
                None => rest,
            },
            None => rest,
        }
    }
}

/// Opens the locker `identifier`: refused when the client has no vault.
pub fn open_locker(has_vault: bool, identifier: String) -> (r: Result<AzLocker, VaultError>)
    ensures
        has_vault ==> (r matches Ok(l) && l.spec_identifier() == identifier@),
        !has_vault ==> r matches Err(VaultError::NotConfigured),
{
    if has_vault {
        Ok(AzLocker { identifier })
    } else {
        Err(VaultError::NotConfigured)
    }
}

impl AzLocker {
    /// The locker's identifier.
    pub closed spec fn spec_identifier(&self) -> Seq<char> {
        self.identifier@
    }

    /// The locker's identifier.
    pub fn identifier(&self) -> (i: String)
        ensures
            i@ == self.spec_identifier(),
    {
        self.identifier.clone()
    }

    /// The vault name of `secret_id`.
    pub fn secret_name(&self, secret_id: &str) -> (n: String)
        ensures
            n@ == secret_name_spec(self.spec_identifier(), secret_id@),
    {
        let mut name = self.identifier.clone();
        push_str(&mut name, "-");
        push_str(&mut name, secret_id);
        proof {
            reveal_strlit("-");
            assert("-"@ =~= seq!['-']);
        }
        let text: &str = name.as_str();
        let bytes: &[u8] = text.as_bytes();
        assert(bytes@ == vstd::utf8::encode_utf8(self.spec_identifier() + seq!['-'] + secret_id@));
        base64url_encode(bytes)
    }

    /// The stored form of a secret's value: its base64url text, which no
    /// other value shares.
    pub fn secret_value(value: &[u8]) -> (t: String)
        ensures
            t@ == base64url(value@),
            forall|v: Seq<u8>| #[trigger] base64url(v) == t@ ==> v == value@,
    {
        let t = base64url_encode(value);
        proof {
            assert forall|v: Seq<u8>| #[trigger] base64url(v) == t@ implies v == value@ by {
                lemma_base64url_injective(v, value@);
            }
        }
        t
    }

    /// The value a `get` returns for the vault's answer: nothing when the
    /// secret is not found or has no value, else the bytes its value
    /// encodes. A value stored as the base64url text of some bytes (what
    /// [`AzLocker::secret_value`] writes) reads back as exactly those bytes.
    pub fn read_secret(response: SecretResponse) -> (r: Result<Option<Vec<u8>>, VaultError>)
        ensures
            match response {
                SecretResponse::NotFound => r matches Ok(None),
                SecretResponse::Failed(d) => r matches Err(VaultError::GetFailed(e)) && e@ == d@,
                SecretResponse::Unreadable(d) => r matches Err(VaultError::Unreadable(e)) && e@ == d@,
                SecretResponse::Secret(None) => r matches Ok(None),
                SecretResponse::Secret(Some(text)) => match r {
                    Ok(Some(v)) => base64url(v@) == text@ && v@ == base64url_bytes(text@),
                    Err(VaultError::Undecodable) => forall|v: Seq<u8>| base64url(v) != text@,
                    _ => false,
                },
            },
            forall|w: Seq<u8>|
                #![trigger base64url(w)]
                (response matches SecretResponse::Secret(Some(text)) && text@ == base64url(w))
                    ==> (r matches Ok(Some(v)) && v@ == w),
    {
        match response {
            SecretResponse::NotFound => Ok(None),
            SecretResponse::Failed(d) => Err(VaultError::GetFailed(d)),
            SecretResponse::Unreadable(d) => Err(VaultError::Unreadable(d)),
            SecretResponse::Secret(None) => Ok(None),
            SecretResponse::Secret(Some(text)) => match base64url_decode(text.as_str()) {
                Some(v) => {
                    proof {
                        assert forall|w: Seq<u8>| #[trigger] base64url(w) == text@ implies v@ == w by {
                            lemma_base64url_injective(v@, w);
                        }
                        lemma_base64url_roundtrip(v@);
                    }
                    Ok(Some(v))
                },
                None => Err(VaultError::Undecodable),
            },
        }
    }

    /// The ids of this locker's secrets among the vault's secret ids.
    pub fn list_ids(&self, ids: Vec<Option<String>>) -> (r: Vec<String>)
        ensures
            r@.map_values(|s: String| s@) == locker_ids_spec(
                self.spec_identifier(),
                ids@.map_values(|o: Option<String>| opt_view(o)),
            ),
    {
        let mut prefix = self.identifier.clone();
        push_str(&mut prefix, "-");
        proof {
            reveal_strlit("-");
            assert("-"@ =~= seq!['-']);
        }
        let ghost iv = ids@.map_values(|o: Option<String>| opt_view(o));
        let mut r: Vec<String> = Vec::new();
        let mut i: usize = 0;
        while i < ids.len()
            invariant
                i <= ids@.len(),
                iv == ids@.map_values(|o: Option<String>| opt_view(o)),
                prefix@ == self.spec_identifier() + seq!['-'],
                r@.map_values(|s: String| s@) == locker_ids_spec(self.spec_identifier(), iv.take(i as int)),
            decreases ids@.len() - i,
        {
            assert(iv.take(i + 1).drop_last() =~= iv.take(i as int));
            let ghost before = r@;
            if let Some(id) = &ids[i] {
                if let Some(rest) = strip_prefix(id.as_str(), prefix.as_str()) {
                    r.push(rest);
                    assert(r@.map_values(|s: String| s@) =~= before.map_values(|s: String| s@).push(rest@));
                }
            }
            i = i + 1;
        }
        assert(iv.take(ids@.len() as int) =~= iv);
        r
    }
}

/// A secret id the locker stored under its prefix is listed back as that
/// id; ids without the prefix are not listed.
pub proof fn lemma_listed_ids(identifier: Seq<char>, secret_id: Seq<char>, other: Seq<char>)
    requires
        strip_prefix_spec(other, identifier + seq!['-']) is None,
    ensures
        locker_ids_spec(identifier, seq![Some(identifier + seq!['-'] + secret_id)]) == seq![secret_id],
        locker_ids_spec(identifier, seq![Some(other)]) == Seq::<Seq<char>>::empty(),
{
    let p = identifier + seq!['-'];
    let full = p + secret_id;
    assert(full.subrange(0, p.len() as int) =~= p);
    assert(full.subrange(p.len() as int, full.len() as int) =~= secret_id);
    assert(seq![Some(full)].drop_last() =~= Seq::<Option<Seq<char>>>::empty());
    assert(seq![Some(other)].drop_last() =~= Seq::<Option<Seq<char>>>::empty());
    assert(locker_ids_spec(identifier, Seq::<Option<Seq<char>>>::empty()) == Seq::<Seq<char>>::empty());
    assert(Seq::<Seq<char>>::empty().push(secret_id) =~= seq![secret_id]);
}

/// A locker's `set` then `get` of one id gives back the value: with the
/// value's base64url text stored in the vault under the id's secret name,
/// the vault holds that name, its text has bytes it encodes (so
/// [`AzLocker::read_secret`] answers with bytes, not an error), and those
/// bytes are the value.
pub proof fn lemma_get_after_set(
    identifier: Seq<char>,
    secret_id: Seq<char>,
    value: Seq<u8>,
    vault: Map<Seq<char>, Seq<char>>,
)
    ensures
        ({
            let name = secret_name_spec(identifier, secret_id);
            let after = vault.insert(name, base64url(value));
            &&& after.contains_key(name)
            &&& exists|v: Seq<u8>| #[trigger] base64url(v) == after[name]
            &&& base64url_bytes(after[name]) == value
        }),
{
    lemma_base64url_roundtrip(value);
    let name = secret_name_spec(identifier, secret_id);
    let after = vault.insert(name, base64url(value));
    assert(base64url(value) == after[name]);
}

} // verus!
