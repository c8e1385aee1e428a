//! What the bridge program makes of its configuration.

use crate::config::{Config, SapientConfig, TakConfig};
use crate::text::{copy_option, decimal, decimal_text, joined, same_text};
use crate::transport::SapientRole;
use vstd::arithmetic::div_mod::lemma_div_denominator;
use vstd::prelude::*;

verus! {

/// `hex::FromHexError`, for text that is not hexadecimal.
#[verifier::external_type_specification]
#[verifier::external_body]
pub struct ExFromHexError(hex::FromHexError);

/// The value of a hexadecimal digit, of either case.
pub open spec fn hex_digit(c: char) -> Option<int> {
    if '0' <= c <= '9' {
        Some(c as int - '0' as int)
    } else if 'a' <= c <= 'f' {
        Some(c as int - 'a' as int + 10)
    } else if 'A' <= c <= 'F' {
        Some(c as int - 'A' as int + 10)
    } else {
        None
    }
}

/// Whether a text is hexadecimal: digits only, in pairs.
pub open spec fn is_hex(text: Seq<char>) -> bool {
    &&& text.len() % 2 == 0
    &&& forall|i: int| 0 <= i < text.len() ==> hex_digit(#[trigger] text[i]) is Some
}

/// The bytes of a hexadecimal text.
pub open spec fn hex_bytes(text: Seq<char>) -> Seq<u8> {
    Seq::new(
        text.len() / 2,
        |i: int| (hex_digit(text[2 * i])->0 * 16 + hex_digit(text[2 * i + 1])->0) as u8,
    )
}

/// `hex::decode`: the bytes of a text if it is hexadecimal, an error otherwise.
#[verifier::external_body]
fn hex_decode(text: &str) -> (bytes: Result<Vec<u8>, hex::FromHexError>)
    ensures
        bytes is Ok <==> is_hex(text@),
        bytes matches Ok(b) ==> b@ == hex_bytes(text@),
{
    hex::decode(text)
}

/// The lower-case hexadecimal digit of a value.
pub open spec fn hex_char(v: int) -> char {
    if v < 10 {
        ('0' as int + v) as char
    } else {
        ('a' as int + (v - 10)) as char
    }
}

/// The hexadecimal text of bytes: two lower-case digits for each, the higher one
/// first.
pub open spec fn hex_text(bytes: Seq<u8>) -> Seq<char> {
    Seq::new(
        2 * bytes.len(),
        |i: int|
            if i % 2 == 0 {
                hex_char(bytes[i / 2] as int / 16)
            } else {
                hex_char(bytes[i / 2] as int % 16)
            },
    )
}

/// `hex::encode`: the hexadecimal text of bytes.
#[verifier::external_body]
fn hex_encode(bytes: &[u8; 32]) -> (text: String)
    ensures
        text@ == hex_text(bytes@),
{
    hex::encode(bytes)
}

/// A text in quotes, with special characters escaped.
pub uninterp spec fn quoted_text(text: Seq<char>) -> Seq<char>;

/// `str`'s `Debug` format: the text in quotes, with special characters escaped;
/// how is not spelled out.
#[verifier::external_body]
fn quoted(text: &str) -> (q: String)
    ensures
        q@ == quoted_text(text@),
{
    format!("{text:?}")
}

/// `rand`'s thread generator, `RngCore::fill_bytes`: random bytes; which ones is
/// not determined.
#[verifier::external_body]
fn random_bytes(count: usize) -> (bytes: Vec<u8>)
    requires
        count <= 0x1000_0000,
    ensures
        bytes@.len() == count,
{
    let mut bytes = vec![0u8; count];
    rand::RngCore::fill_bytes(&mut rand::thread_rng(), &mut bytes);
    bytes
}

/// The character of a 6-bit value in the standard base64 alphabet.
pub open spec fn base64_char(v: int) -> char {
    if v < 26 {
        ('A' as int + v) as char
    } else if v < 52 {
        ('a' as int + (v - 26)) as char
    } else if v < 62 {
        ('0' as int + (v - 52)) as char
    } else if v == 62 {
        '+'
    } else {
        '/'
    }
}

/// The byte at a place, zero behind the end.
pub open spec fn byte_or_zero(bytes: Seq<u8>, i: int) -> int {
    if 0 <= i < bytes.len() {
        bytes[i] as int
    } else {
        0
    }
}

/// The `j`-th 6-bit value of the `g`-th group of three bytes.
pub open spec fn base64_value(bytes: Seq<u8>, g: int, j: int) -> int {
    let group = byte_or_zero(bytes, 3 * g) * 65536 + byte_or_zero(bytes, 3 * g + 1) * 256
        + byte_or_zero(bytes, 3 * g + 2);
    if j == 0 {
        group / 262144
    } else if j == 1 {
        group / 4096 % 64
    } else if j == 2 {
        group / 64 % 64
    } else {
        group % 64
    }
}

/// The standard base64 text of bytes, padded: four characters for each group of
/// three bytes, those without a byte replaced by `=`.
pub open spec fn base64_text(bytes: Seq<u8>) -> Seq<char> {
    Seq::new(
        4 * ((bytes.len() + 2) / 3),
        |i: int|
            if i % 4 <= bytes.len() - 3 * (i / 4) {
                base64_char(base64_value(bytes, i / 4, i % 4))
            } else {
                '='
            },
    )
}

/// `base64`'s `Engine::encode` with the `STANDARD` engine: the padded text of the
/// bytes in the standard alphabet.
#[verifier::external_body]
fn base64_encode(bytes: &Vec<u8>) -> (text: String)
    requires
        bytes@.len() <= 0x1000_0000,
    ensures
        text@ == base64_text(bytes@),
{
    base64::Engine::encode(&base64::engine::general_purpose::STANDARD, bytes)
}

/// Why settings cannot be used.
#[derive(Clone, Debug, PartialEq, Eq)]
pub enum SettingsError {
    /// A peer has no `@`.
    PeerWithoutAddress,
    /// The identifier of a peer is not hexadecimal.
    PeerIdNotHex(String),
    /// The identifier of a peer does not have 32 bytes.
    PeerIdLength(usize),
    /// The address of a peer is not one.
    PeerAddress(String),
    /// A node needs the address of its manager.
    RemoteMissing,
    /// The role is neither `hldmm` nor `dlmm`.
    UnknownRole(String),
    /// TLS needs a certificate.
    CertMissing,
    /// TLS needs a private key.
    KeyMissing,
    /// TLS of a node needs the certificate of its authority.
    CaCertMissing,
    /// TLS to the TAK server needs a certificate.
    TakCertMissing,
    /// TLS to the TAK server needs a private key.
    TakKeyMissing,
    /// TLS to the TAK server needs the certificate of its authority.
    TakCaCertMissing,
}

/// What a [`SettingsError`] says.
#[verifier::ext_equal]
pub enum SettingsErrorModel {
    PeerWithoutAddress,
    PeerIdNotHex(Seq<char>),
    PeerIdLength(nat),
    PeerAddress(Seq<char>),
    RemoteMissing,
    UnknownRole(Seq<char>),
    CertMissing,
    KeyMissing,
    CaCertMissing,
    TakCertMissing,
    TakKeyMissing,
    TakCaCertMissing,
}

impl View for SettingsError {
    type V = SettingsErrorModel;

    open spec fn view(&self) -> SettingsErrorModel {
        match *self {
            SettingsError::PeerWithoutAddress => SettingsErrorModel::PeerWithoutAddress,
            SettingsError::PeerIdNotHex(id) => SettingsErrorModel::PeerIdNotHex(id@),
            SettingsError::PeerIdLength(n) => SettingsErrorModel::PeerIdLength(n as nat),
            SettingsError::PeerAddress(addr) => SettingsErrorModel::PeerAddress(addr@),
            SettingsError::RemoteMissing => SettingsErrorModel::RemoteMissing,
            SettingsError::UnknownRole(role) => SettingsErrorModel::UnknownRole(role@),
            SettingsError::CertMissing => SettingsErrorModel::CertMissing,
            SettingsError::KeyMissing => SettingsErrorModel::KeyMissing,
            SettingsError::CaCertMissing => SettingsErrorModel::CaCertMissing,
            SettingsError::TakCertMissing => SettingsErrorModel::TakCertMissing,
            SettingsError::TakKeyMissing => SettingsErrorModel::TakKeyMissing,
            SettingsError::TakCaCertMissing => SettingsErrorModel::TakCaCertMissing,
        }
    }
}

/// The sentence that describes an error.
pub open spec fn settings_error_text(error: SettingsErrorModel) -> Seq<char> {
    match error {
        SettingsErrorModel::PeerWithoutAddress => {
            "--peer needs NODE_ID_HEX@ADDR (64 hex chars @ ip:port)"@
        },
        SettingsErrorModel::PeerIdNotHex(id) => "node id "@ + quoted_text(id)
            + " is not valid hex"@,
        SettingsErrorModel::PeerIdLength(n) => "node id has "@ + decimal(n)
            + " bytes, need 32 (64 hex chars)"@,
        SettingsErrorModel::PeerAddress(addr) => quoted_text(addr) + " is not a valid IP:PORT"@,
        SettingsErrorModel::RemoteMissing => "DLMM mode requires sapient.remote address"@,
        SettingsErrorModel::UnknownRole(role) => "unknown sapient.role: "@ + quoted_text(role)
            + " (expected hldmm or dlmm)"@,
        SettingsErrorModel::CertMissing => "SAPIENT TLS requires --sapient-cert"@,
        SettingsErrorModel::KeyMissing => "SAPIENT TLS requires --sapient-key"@,
        SettingsErrorModel::CaCertMissing => "SAPIENT DLMM TLS requires --sapient-ca-cert"@,
        SettingsErrorModel::TakCertMissing => "TAK TLS requires --tak-cert"@,
        SettingsErrorModel::TakKeyMissing => "TAK TLS requires --tak-key"@,
        SettingsErrorModel::TakCaCertMissing => "TAK TLS requires --tak-ca-cert"@,
    }
}

impl SettingsError {
    /// Describes the error in a sentence.
    pub fn message(&self) -> (text: String)
        ensures
            text@ == settings_error_text(self@),
    {
        match self {
            SettingsError::PeerWithoutAddress => {
                "--peer needs NODE_ID_HEX@ADDR (64 hex chars @ ip:port)".to_owned()
            },
            SettingsError::PeerIdNotHex(id) => {
                let mut text = joined("node id ", quoted(id.as_str()).as_str());
                text.append(" is not valid hex");
                text
            },
            SettingsError::PeerIdLength(n) => {
                let mut text = joined("node id has ", decimal_text(*n as u64).as_str());
                text.append(" bytes, need 32 (64 hex chars)");
                text
            },
            SettingsError::PeerAddress(addr) => {
                let mut text = quoted(addr.as_str());
                text.append(" is not a valid IP:PORT");
                text
            },
            SettingsError::RemoteMissing => {
                "DLMM mode requires sapient.remote address".to_owned()
            },
            SettingsError::UnknownRole(role) => {
                let mut text = joined("unknown sapient.role: ", quoted(role.as_str()).as_str());
                text.append(" (expected hldmm or dlmm)");
                text
            },
            SettingsError::CertMissing => "SAPIENT TLS requires --sapient-cert".to_owned(),
            SettingsError::KeyMissing => "SAPIENT TLS requires --sapient-key".to_owned(),
            SettingsError::CaCertMissing => {
                "SAPIENT DLMM TLS requires --sapient-ca-cert".to_owned()
            },
            SettingsError::TakCertMissing => "TAK TLS requires --tak-cert".to_owned(),
            SettingsError::TakKeyMissing => "TAK TLS requires --tak-key".to_owned(),
            SettingsError::TakCaCertMissing => "TAK TLS requires --tak-ca-cert".to_owned(),
        }
    }
}

/// The number of characters before the first `@` of a text.
pub open spec fn before_at(text: Seq<char>) -> nat
    decreases text.len(),
{
    if text.len() == 0 || text[0] == '@' {
        0
    } else {
        1 + before_at(text.drop_first())
    }
}

/// The identifier and what stands in place of the address in the description of
/// a peer, or why there are none.
pub open spec fn peer_parts(spec: Seq<char>) -> Result<(Seq<char>, Seq<char>), SettingsErrorModel> {
    let at = before_at(spec) as int;
    if at == spec.len() {
        Err(SettingsErrorModel::PeerWithoutAddress)
    } else if !is_hex(spec.take(at)) {
        Err(SettingsErrorModel::PeerIdNotHex(spec.take(at)))
    } else if at != 64 {
        Err(SettingsErrorModel::PeerIdLength((at / 2) as nat))
    } else {
        Ok((spec.take(at), spec.skip(at + 1)))
    }
}

/// A peer: its identifier in hexadecimal, and its address.
#[derive(Clone, Debug, PartialEq, Eq)]
pub struct PeerSpec {
    pub id_hex: String,
    pub addr: String,
}

/// What splitting the description of a peer comes to.
pub open spec fn split_result(split: Result<PeerSpec, SettingsError>) -> Result<
    (Seq<char>, Seq<char>),
    SettingsErrorModel,
> {
    match split {
        Ok(peer) => Ok((peer.id_hex@, peer.addr@)),
        Err(e) => Err(e@),
    }
}

/// Reads the description of a peer, `NODE_ID_HEX@ADDR`, but for the address: the
/// identifier must be 32 bytes in hexadecimal.
pub fn split_peer(spec: &str) -> (split: Result<PeerSpec, SettingsError>)
    ensures
        split_result(split) == peer_parts(spec@),
{
    let count = spec.unicode_len();
    let mut at: usize = 0;
    assert(spec@.skip(0) =~= spec@);
    while at < count && spec.get_char(at) != '@'
        invariant
            count == spec@.len(),
            at <= count,
            before_at(spec@) == at + before_at(spec@.skip(at as int)),
        decreases count - at,
    {
        proof {
            let rest = spec@.skip(at as int);
            assert(rest[0] == spec@[at as int]);
            assert(rest.drop_first() =~= spec@.skip(at + 1));
        }
        at = at + 1;
    }
    proof {
        let rest = spec@.skip(at as int);
        if at < count {
            assert(rest[0] == spec@[at as int]);
        }
        assert(before_at(spec@) == at);
    }
    if at == count {
        return Err(SettingsError::PeerWithoutAddress);
    }
    let id_hex = spec.substring_char(0, at);
    let addr = spec.substring_char(at + 1, count);
    proof {
        assert(id_hex@ =~= spec@.take(at as int));
        assert(addr@ =~= spec@.skip(at + 1));
    }
    let raw = match hex_decode(id_hex) {
        Ok(raw) => raw,
        Err(_) => return Err(SettingsError::PeerIdNotHex(id_hex.to_owned())),
    };
    if raw.len() != 32 {
        return Err(SettingsError::PeerIdLength(raw.len()));
    }
    Ok(PeerSpec { id_hex: id_hex.to_owned(), addr: addr.to_owned() })
}

/// The description under which others reach a node.
pub open spec fn peer_text(id: Seq<u8>, bind: Seq<char>) -> Seq<char> {
    hex_text(id) + "@"@ + bind
}

/// The identifier of a node, in hexadecimal.
pub fn id_hex(id: &[u8; 32]) -> (text: String)
    ensures
        text@ == hex_text(id@),
        text@.len() == 64,
{
    hex_encode(id)
}

/// The description under which others reach a node that is bound to an address.
pub fn peer_spec(id: &[u8; 32], bind: &str) -> (spec: String)
    ensures
        spec@ == peer_text(id@, bind@),
{
    let mut spec = id_hex(id);
    spec.append("@");
    spec.append(bind);
    spec
}

proof fn lemma_hex_text(bytes: Seq<u8>)
    ensures
        is_hex(hex_text(bytes)),
        hex_bytes(hex_text(bytes)) == bytes,
        forall|i: int| 0 <= i < hex_text(bytes).len() ==> #[trigger] hex_text(bytes)[i] != '@',
{
    let text = hex_text(bytes);
    assert forall|v: int| 0 <= v < 16 implies hex_digit(#[trigger] hex_char(v)) == Some(v)
        && hex_char(v) != '@' by {}
    assert forall|i: int| 0 <= i < text.len() implies hex_digit(#[trigger] text[i]) is Some
        && text[i] != '@' by {
        let high = bytes[i / 2] as int / 16;
        let low = bytes[i / 2] as int % 16;
        assert(hex_digit(hex_char(high)) == Some(high));
        assert(hex_digit(hex_char(low)) == Some(low));
    }
    assert forall|k: int| 0 <= k < bytes.len() implies hex_bytes(text)[k] == bytes[k] by {
        let high = bytes[k] as int / 16;
        let low = bytes[k] as int % 16;
        assert(text[2 * k] == hex_char(high));
        assert(text[2 * k + 1] == hex_char(low));
        assert(hex_digit(hex_char(high)) == Some(high));
        assert(hex_digit(hex_char(low)) == Some(low));
    }
    assert(hex_bytes(text) =~= bytes);
}

proof fn lemma_before_at(text: Seq<char>, n: int)
    requires
        0 <= n < text.len(),
        text[n] == '@',
        forall|i: int| 0 <= i < n ==> #[trigger] text[i] != '@',
    ensures
        before_at(text) == n,
    decreases n,
{
    if n > 0 {
        let rest = text.drop_first();
        assert(text[0] != '@');
        assert forall|i: int| 0 <= i < n - 1 implies #[trigger] rest[i] != '@' by {
            assert(text[i + 1] != '@');
        }
        lemma_before_at(rest, n - 1);
    }
}

/// What a node prints for others to reach it is what they read as its
/// description: they find its identifier and its address in it.
pub proof fn law_peer_spec_is_read_back(id: Seq<u8>, bind: Seq<char>)
    requires
        id.len() == 32,
    ensures
        peer_parts(peer_text(id, bind)) == Ok::<(Seq<char>, Seq<char>), SettingsErrorModel>(
            (hex_text(id), bind),
        ),
        hex_bytes(hex_text(id)) == id,
{
    let hex = hex_text(id);
    let text = peer_text(id, bind);
    reveal_strlit("@");
    lemma_hex_text(id);
    assert forall|i: int| 0 <= i < 64 implies #[trigger] text[i] != '@' by {
        assert(text[i] == hex[i]);
    }
    lemma_before_at(text, 64);
    assert(text.take(64) =~= hex);
    assert(text.skip(65) =~= bind);
}

/// Reads the description of a peer, given whether what stands in place of the
/// address is one.
pub fn checked_peer(split: Result<PeerSpec, SettingsError>, valid_addr: bool) -> (peer: Result<
    (String, Vec<String>),
    SettingsError,
>)
    ensures
        match split {
            Ok(s) => if valid_addr {
                peer matches Ok(p) && p.0 == s.id_hex && p.1@ == seq![s.addr]
            } else {
                peer matches Err(e) && e@ == SettingsErrorModel::PeerAddress(s.addr@)
            },
            Err(e) => peer matches Err(f) && f == e,
        },
{
    match split {
        Ok(s) => if valid_addr {
            let mut addrs: Vec<String> = Vec::new();
            addrs.push(s.addr);
            assert(addrs@ =~= seq![s.addr]);
            Ok((s.id_hex, addrs))
        } else {
            Err(SettingsError::PeerAddress(s.addr))
        },
        Err(e) => Err(e),
    }
}

/// Reads the description of a peer, `NODE_ID_HEX@ADDR`, where `valid` decides
/// what an address is.
pub fn parse_peer<F: Fn(&str) -> bool>(spec: &str, valid: F) -> (peer: Result<
    (String, Vec<String>),
    SettingsError,
>)
    requires
        forall|addr: &str| #[trigger] call_requires(valid, (addr,)),
    ensures
        match (peer_parts(spec@), peer) {
            (Ok((id, addr)), Ok((p, addrs))) => {
                &&& p@ == id
                &&& addrs@.len() == 1
                &&& addrs@[0]@ == addr
                &&& accepted(valid, addr, true)
            },
            (Ok((id, addr)), Err(e)) => {
                &&& e@ == SettingsErrorModel::PeerAddress(addr)
                &&& accepted(valid, addr, false)
            },
            (Err(e), Err(f)) => f@ == e,
            (Err(_), Ok(_)) => false,
        },
{
    let split = split_peer(spec);
    let valid_addr = match &split {
        Ok(s) => {
            let addr = s.addr.as_str();
            let answer = valid(addr);
            assert(accepted(valid, s.addr@, answer)) by {
                assert(call_ensures(valid, (addr,), answer) && addr@ == s.addr@);
            }
            answer
        },
        Err(_) => false,
    };
    checked_peer(split, valid_addr)
}

/// `answer` is what `valid` says of a text.
pub open spec fn accepted<F: Fn(&str) -> bool>(valid: F, text: Seq<char>, answer: bool) -> bool {
    exists|addr: &str| #[trigger] call_ensures(valid, (addr,), answer) && addr@ == text
}

/// The role that a configuration asks for, or why it cannot be had.
pub open spec fn is_resolved_role(cfg: SapientConfig, role: Result<SapientRole, SettingsError>) -> bool {
    match cfg.role {
        Some(name) => if name@ == "hldmm"@ {
            is_listener(cfg, role)
        } else if name@ == "dlmm"@ {
            match cfg.remote {
                Some(remote) => {
                    &&& role matches Ok(SapientRole::Dlmm { remote_addr, peer_node_id })
                    &&& remote_addr@ == remote@
                    &&& peer_node_id@ == match cfg.peer_node_id {
                        Some(id) => id@,
                        None => "hldmm-0"@,
                    }
                },
                None => role matches Err(e) && e@ == SettingsErrorModel::RemoteMissing,
            }
        } else {
            role matches Err(e) && e@ == SettingsErrorModel::UnknownRole(name@)
        },
        None => is_listener(cfg, role),
    }
}

/// `role` listens where a configuration says, or on every address by default.
pub open spec fn is_listener(cfg: SapientConfig, role: Result<SapientRole, SettingsError>) -> bool {
    &&& role matches Ok(SapientRole::Hldmm { listen_addr })
    &&& listen_addr@ == match cfg.listen {
        Some(addr) => addr@,
        None => "0.0.0.0:12000"@,
    }
}

fn or_default(text: &Option<String>, default: &str) -> (value: String)
    ensures
        value@ == match *text {
            Some(t) => t@,
            None => default@,
        },
{
    match text {
        Some(t) => t.clone(),
        None => default.to_owned(),
    }
}

/// The role that a configuration asks for. A manager is the default; a node
/// needs the address of its manager.
pub fn resolve_sapient_role(cfg: &SapientConfig) -> (role: Result<SapientRole, SettingsError>)
    ensures
        is_resolved_role(*cfg, role),
{
    let listener = SapientRole::Hldmm { listen_addr: or_default(&cfg.listen, "0.0.0.0:12000") };
    match &cfg.role {
        Some(name) => if same_text(name.as_str(), "hldmm") {
            Ok(listener)
        } else if same_text(name.as_str(), "dlmm") {
            match &cfg.remote {
                Some(remote) => Ok(
                    SapientRole::Dlmm {
                        remote_addr: remote.clone(),
                        peer_node_id: or_default(&cfg.peer_node_id, "hldmm-0"),
                    },
                ),
                None => Err(SettingsError::RemoteMissing),
            }
        } else {
            Err(SettingsError::UnknownRole(name.clone()))
        },
        None => Ok(listener),
    }
}

/// The sentence that describes a role.
pub open spec fn role_text(role: SapientRole) -> Seq<char> {
    match role {
        SapientRole::Hldmm { listen_addr } => "HLDMM listening on "@ + listen_addr@,
        SapientRole::Dlmm { remote_addr, peer_node_id } => "DLMM connecting to "@ + remote_addr@
            + " as "@ + peer_node_id@,
    }
}

/// Describes a role in a sentence.
pub fn role_summary(role: &SapientRole) -> (text: String)
    ensures
        text@ == role_text(*role),
{
    match role {
        SapientRole::Hldmm { listen_addr } => joined("HLDMM listening on ", listen_addr.as_str()),
        SapientRole::Dlmm { remote_addr, peer_node_id } => {
            let mut text = joined("DLMM connecting to ", remote_addr.as_str());
            text.append(" as ");
            text.append(peer_node_id.as_str());
            text
        },
    }
}

/// The files that TLS is set up from.
#[derive(Clone, Debug, PartialEq, Eq)]
pub enum TlsFiles {
    /// A server's identity, and the authority of its clients where they are to
    /// be verified.
    Server { cert: String, key: String, ca_cert: Option<String> },
    /// The authority of a client's server, and the client's own identity, a
    /// certificate and its key, where it has one.
    Client { ca_cert: String, identity: Option<(String, String)> },
}

/// `files` are the files that TLS of a role is set up from, or the first that is
/// missing. A server needs an identity, a client its server's authority. A
/// client may go without an identity, but not with half of one.
pub open spec fn is_tls_setup(
    cfg: SapientConfig,
    role: SapientRole,
    files: Result<TlsFiles, SettingsError>,
) -> bool {
    match role {
        SapientRole::Hldmm { .. } => match (cfg.cert, cfg.key) {
            (None, _) => files matches Err(e) && e@ == SettingsErrorModel::CertMissing,
            (_, None) => files matches Err(e) && e@ == SettingsErrorModel::KeyMissing,
            (Some(cert), Some(key)) => files matches Ok(f) && f == (TlsFiles::Server {
                cert,
                key,
                ca_cert: cfg.ca_cert,
            }),
        },
        SapientRole::Dlmm { .. } => match (cfg.cert, cfg.key, cfg.ca_cert) {
            (None, Some(_), _) => files matches Err(e) && e@ == SettingsErrorModel::CertMissing,
            (Some(_), None, _) => files matches Err(e) && e@ == SettingsErrorModel::KeyMissing,
            (_, _, None) => files matches Err(e) && e@ == SettingsErrorModel::CaCertMissing,
            (Some(cert), Some(key), Some(ca_cert)) => files matches Ok(f) && f == (
            TlsFiles::Client { ca_cert, identity: Some((cert, key)) }),
            (None, None, Some(ca_cert)) => files matches Ok(f) && f == (TlsFiles::Client {
                ca_cert,
                identity: None,
            }),
        },
    }
}

/// The files that TLS of a role is set up from.
pub fn build_sapient_tls(cfg: &SapientConfig, role: &SapientRole) -> (files: Result<
    TlsFiles,
    SettingsError,
>)
    ensures
        is_tls_setup(*cfg, *role, files),
{
    match role {
        SapientRole::Hldmm { .. } => {
            let cert = match &cfg.cert {
                Some(cert) => cert.clone(),
                None => return Err(SettingsError::CertMissing),
            };
            let key = match &cfg.key {
                Some(key) => key.clone(),
                None => return Err(SettingsError::KeyMissing),
            };
            Ok(TlsFiles::Server { cert, key, ca_cert: copy_option(&cfg.ca_cert) })
        },
        SapientRole::Dlmm { .. } => {
            let identity = match (&cfg.cert, &cfg.key) {
                (Some(cert), Some(key)) => Some((cert.clone(), key.clone())),
                (None, Some(_)) => return Err(SettingsError::CertMissing),
                (Some(_), None) => return Err(SettingsError::KeyMissing),
                (None, None) => None,
            };
            let ca_cert = match &cfg.ca_cert {
                Some(ca_cert) => ca_cert.clone(),
                None => return Err(SettingsError::CaCertMissing),
            };
            Ok(TlsFiles::Client { ca_cert, identity })
        },
    }
}

/// Identity towards a TAK server.
#[derive(Clone, Debug, PartialEq, Eq)]
pub struct TakIdentity {
    pub client_cert: String,
    pub client_key: String,
    pub ca_cert: String,
    pub callsign: String,
    pub tls_server_name: Option<String>,
}

/// The connection to a TAK server.
#[derive(Clone, Debug, PartialEq, Eq)]
pub struct TakPlan {
    pub server: String,
    pub peer_node_id: String,
    pub use_tls: bool,
    pub identity: Option<TakIdentity>,
    /// Largest size of a message from the server, in bytes.
    pub max_message_bytes: u64,
}

/// `identity` is the identity that a configuration gives.
pub open spec fn is_tak_identity(cfg: TakConfig, identity: TakIdentity) -> bool {
    &&& cfg.client_cert == Some(identity.client_cert)
    &&& cfg.client_key == Some(identity.client_key)
    &&& cfg.ca_cert == Some(identity.ca_cert)
    &&& identity.callsign@ == match cfg.callsign {
        Some(callsign) => callsign@,
        None => "Peat-BRIDGE"@,
    }
    &&& identity.tls_server_name == cfg.tls_server_name
}

/// `plan` is the connection to the TAK server that a configuration asks for, if
/// it does. TLS needs a certificate, a key and the server's authority.
pub open spec fn is_tak_plan(cfg: TakConfig, plan: Result<Option<TakPlan>, SettingsError>) -> bool {
    match cfg.server {
        None => plan matches Ok(None),
        Some(server) => if cfg.tls == Some(true) && cfg.client_cert is None {
            plan matches Err(e) && e@ == SettingsErrorModel::TakCertMissing
        } else if cfg.tls == Some(true) && cfg.client_key is None {
            plan matches Err(e) && e@ == SettingsErrorModel::TakKeyMissing
        } else if cfg.tls == Some(true) && cfg.ca_cert is None {
            plan matches Err(e) && e@ == SettingsErrorModel::TakCaCertMissing
        } else {
            &&& plan matches Ok(Some(p))
            &&& p.server == server
            &&& p.peer_node_id@ == match cfg.peer_node_id {
                Some(id) => id@,
                None => "tak-server-0"@,
            }
            &&& p.use_tls == (cfg.tls == Some(true))
            &&& p.max_message_bytes == match cfg.max_message_bytes {
                Some(bytes) => bytes,
                None => 65536,
            }
            &&& match p.identity {
                Some(identity) => p.use_tls && is_tak_identity(cfg, identity),
                None => !p.use_tls,
            }
        },
    }
}

/// The connection to the TAK server that a configuration asks for, if it does.
pub fn tak_plan(cfg: &TakConfig) -> (plan: Result<Option<TakPlan>, SettingsError>)
    ensures
        is_tak_plan(*cfg, plan),
{
    let server = match &cfg.server {
        Some(server) => server.clone(),
        None => return Ok(None),
    };
    let use_tls = match cfg.tls {
        Some(tls) => tls,
        None => false,
    };
    let identity = if use_tls {
        let client_cert = match &cfg.client_cert {
            Some(cert) => cert.clone(),
            None => return Err(SettingsError::TakCertMissing),
        };
        let client_key = match &cfg.client_key {
            Some(key) => key.clone(),
            None => return Err(SettingsError::TakKeyMissing),
        };
        let ca_cert = match &cfg.ca_cert {
            Some(ca_cert) => ca_cert.clone(),
            None => return Err(SettingsError::TakCaCertMissing),
        };
        Some(
            TakIdentity {
                client_cert,
                client_key,
                ca_cert,
                callsign: or_default(&cfg.callsign, "Peat-BRIDGE"),
                tls_server_name: copy_option(&cfg.tls_server_name),
            },
        )
    } else {
        None
    };
    Ok(
        Some(
            TakPlan {
                server,
                peer_node_id: or_default(&cfg.peer_node_id, "tak-server-0"),
                use_tls,
                identity,
                max_message_bytes: cfg.max_message_bytes.unwrap_or(65536),
            },
        ),
    )
}

/// The name of the node.
pub fn node_name(config: &Config) -> (name: String)
    ensures
        name@ == match config.node.name {
            Some(n) => n@,
            None => "sapient-bridge"@,
        },
{
    or_default(&config.node.name, "sapient-bridge")
}

/// The formation that the node belongs to.
pub fn formation_id(config: &Config) -> (id: String)
    ensures
        id@ == match config.mesh.formation_id {
            Some(f) => f@,
            None => "sapient-bridge-default"@,
        },
{
    or_default(&config.mesh.formation_id, "sapient-bridge-default")
}

/// The base64 text of a formation secret.
pub fn key_text(secret: &Vec<u8>) -> (text: String)
    requires
        secret@.len() == 32,
    ensures
        text@ == base64_text(secret@),
        text@.len() == 44,
{
    base64_encode(secret)
}

/// A text is the base64 text of a secret of 32 bytes.
pub open spec fn is_key_text(text: Seq<char>) -> bool {
    exists|secret: Seq<u8>| secret.len() == 32 && text == #[trigger] base64_text(secret)
}

/// The base64 text of a fresh random formation secret.
pub fn base64_default_key() -> (text: String)
    ensures
        is_key_text(text@),
{
    let secret = random_bytes(32);
    key_text(&secret)
}

/// The formation secret: the configured one, or a fresh random one.
pub fn shared_key(config: &Config) -> (text: String)
    ensures
        match config.mesh.shared_key {
            Some(key) => text@ == key@,
            None => is_key_text(text@),
        },
{
    match &config.mesh.shared_key {
        Some(key) => key.clone(),
        None => base64_default_key(),
    }
}

proof fn lemma_at_is_first(text: Seq<char>)
    ensures
        before_at(text) <= text.len(),
        forall|i: int| 0 <= i < before_at(text) ==> #[trigger] text[i] != '@',
        before_at(text) < text.len() ==> text[before_at(text) as int] == '@',
    decreases text.len(),
{
    if text.len() > 0 && text[0] != '@' {
        let rest = text.drop_first();
        lemma_at_is_first(rest);
        assert forall|i: int| 0 <= i < before_at(text) implies #[trigger] text[i] != '@' by {
            if i > 0 {
                assert(rest[i - 1] != '@');
            }
        }
    }
}

/// A description that is taken apart is the identifier, an `@` and the rest; the
/// identifier is 64 hexadecimal digits of either case.
pub proof fn law_peer_is_identifier_and_address(spec: Seq<char>, id: Seq<char>, addr: Seq<char>)
    ensures
        peer_parts(spec) == Ok::<(Seq<char>, Seq<char>), SettingsErrorModel>((id, addr)) <==> {
            &&& spec == id + seq!['@'] + addr
            &&& id.len() == 64
            &&& forall|i: int|
                0 <= i < 64 ==> ('0' <= #[trigger] id[i] <= '9' || 'a' <= id[i] <= 'f' || 'A'
                    <= id[i] <= 'F')
        },
{
    lemma_at_is_first(spec);
    let at = before_at(spec) as int;
    if peer_parts(spec) == Ok::<(Seq<char>, Seq<char>), SettingsErrorModel>((id, addr)) {
        assert(spec =~= id + seq!['@'] + addr);
        assert forall|i: int| 0 <= i < 64 implies ('0' <= #[trigger] id[i] <= '9' || 'a' <= id[i]
            <= 'f' || 'A' <= id[i] <= 'F') by {
            assert(hex_digit(spec.take(at)[i]) is Some);
        }
    }
    if spec == id + seq!['@'] + addr && id.len() == 64 && (forall|i: int|
        0 <= i < 64 ==> ('0' <= #[trigger] id[i] <= '9' || 'a' <= id[i] <= 'f' || 'A' <= id[i]
            <= 'F')) {
        assert forall|i: int| 0 <= i < 64 implies #[trigger] spec[i] != '@' by {
            assert(spec[i] == id[i]);
        }
        lemma_before_at(spec, 64);
        assert(spec.take(64) =~= id);
        assert(spec.skip(65) =~= addr);
        assert(is_hex(id));
    }
}

/// A description that is not taken apart says why: it has no `@`, or what stands
/// before the first one is not made of pairs of digits, or of too few or too many.
pub proof fn law_peer_is_refused_for_a_reason(spec: Seq<char>, id: Seq<char>, n: nat)
    ensures
        peer_parts(spec) == Err::<(Seq<char>, Seq<char>), SettingsErrorModel>(
            SettingsErrorModel::PeerWithoutAddress,
        ) <==> !spec.contains('@'),
        peer_parts(spec) == Err::<(Seq<char>, Seq<char>), SettingsErrorModel>(
            SettingsErrorModel::PeerIdNotHex(id),
        ) ==> {
            &&& id.len() < spec.len()
            &&& spec.take(id.len() as int) == id
            &&& spec[id.len() as int] == '@'
            &&& !id.contains('@')
            &&& id.len() % 2 != 0 || exists|i: int|
                0 <= i < id.len() && !('0' <= #[trigger] id[i] <= '9' || 'a' <= id[i] <= 'f'
                    || 'A' <= id[i] <= 'F')
        },
        peer_parts(spec) == Err::<(Seq<char>, Seq<char>), SettingsErrorModel>(
            SettingsErrorModel::PeerIdLength(n),
        ) ==> {
            &&& n != 32
            &&& 2 * n < spec.len()
            &&& spec[2 * n as int] == '@'
            &&& !spec.take(2 * n as int).contains('@')
        },
        peer_parts(spec) matches Err(e) ==> e == SettingsErrorModel::PeerWithoutAddress
            || e is PeerIdNotHex || e is PeerIdLength,
{
    lemma_at_is_first(spec);
    let at = before_at(spec) as int;
    if at < spec.len() {
        assert(spec.contains(spec[at]));
        let head = spec.take(at);
        assert forall|i: int| 0 <= i < at implies #[trigger] head[i] != '@' by {
            assert(spec[i] != '@');
        }
        assert(!head.contains('@'));
        if !is_hex(head) && at % 2 == 0 {
            let i = choose|i: int| 0 <= i < head.len() && hex_digit(#[trigger] head[i]) is None;
            assert(!('0' <= head[i] <= '9' || 'a' <= head[i] <= 'f' || 'A' <= head[i] <= 'F'));
        }
    } else {
        assert(!spec.contains('@'));
    }
}

/// The hexadecimal text of bytes has two lower-case digits for each byte, in the
/// order of the bytes, and the digits are worth the byte.
pub proof fn law_hex_text_is_worth_the_bytes(bytes: Seq<u8>, i: int)
    requires
        0 <= i < bytes.len(),
    ensures
        hex_text(bytes).len() == 2 * bytes.len(),
        ({
            let high = hex_text(bytes)[2 * i];
            let low = hex_text(bytes)[2 * i + 1];
            &&& ('0' <= high <= '9' || 'a' <= high <= 'f') && ('0' <= low <= '9' || 'a' <= low
                <= 'f')
            &&& bytes[i] == 16 * (if high <= '9' { high as int - 48 } else { high as int - 87 }) + (
            if low <= '9' { low as int - 48 } else { low as int - 87 })
        }),
{
    let high = bytes[i] as int / 16;
    let low = bytes[i] as int % 16;
    assert(hex_text(bytes)[2 * i] == hex_char(high));
    assert(hex_text(bytes)[2 * i + 1] == hex_char(low));
}

/// The value of a character of the standard base64 alphabet: capital letters, small
/// letters, digits, `+` and `/`, in that order.
pub open spec fn sextet(c: char) -> int {
    if 'A' <= c <= 'Z' {
        c as int - 65
    } else if 'a' <= c <= 'z' {
        c as int - 71
    } else if '0' <= c <= '9' {
        c as int + 4
    } else if c == '+' {
        62
    } else if c == '/' {
        63
    } else {
        -1
    }
}

proof fn lemma_sextet(v: int)
    requires
        0 <= v < 64,
    ensures
        sextet(base64_char(v)) == v,
{
}

proof fn lemma_group(a: int, b: int, c: int)
    requires
        0 <= a < 256,
        0 <= b < 256,
        0 <= c < 256,
    ensures
        ({
            let group = a * 65536 + b * 256 + c;
            &&& 0 <= group / 262144 < 64
            &&& group == group / 262144 * 262144 + group / 4096 % 64 * 4096 + group / 64 % 64 * 64
                + group % 64
            &&& c == 0 ==> group % 64 == 0
        }),
{
    let group = a * 65536 + b * 256 + c;
    lemma_div_denominator(group, 64, 64);
    lemma_div_denominator(group, 4096, 64);
    let first = group / 64;
    let second = group / 4096;
    let third = group / 262144;
    assert(group == 64 * first + group % 64);
    assert(first == 64 * second + first % 64);
    assert(second == 64 * third + second % 64);
    assert(0 <= group < 16777216);
    if c == 0 {
        let k = a * 1024 + b * 4;
        assert(group == 64 * k);
    }
}

proof fn lemma_group_text(secret: Seq<u8>, g: int)
    requires
        secret.len() == 32,
        0 <= g <= 10,
    ensures
        base64_text(secret).len() == 44,
        base64_text(secret)[4 * g] == base64_char(base64_value(secret, g, 0)),
        base64_text(secret)[4 * g + 1] == base64_char(base64_value(secret, g, 1)),
        base64_text(secret)[4 * g + 2] == base64_char(base64_value(secret, g, 2)),
        g < 10 ==> base64_text(secret)[4 * g + 3] == base64_char(base64_value(secret, g, 3)),
        g == 10 ==> base64_text(secret)[43] == '=',
{
    assert((4 * g) / 4 == g && (4 * g) % 4 == 0);
    assert((4 * g + 1) / 4 == g && (4 * g + 1) % 4 == 1);
    assert((4 * g + 2) / 4 == g && (4 * g + 2) % 4 == 2);
    assert((4 * g + 3) / 4 == g && (4 * g + 3) % 4 == 3);
}

/// The text of a secret gives the secret back: each four characters are worth the
/// three bytes that they stand for, and the last four, of which the last is a `=`,
/// the two bytes that are left.
pub proof fn law_key_text_gives_the_secret_back(secret: Seq<u8>, g: int)
    requires
        secret.len() == 32,
        0 <= g <= 10,
    ensures
        base64_text(secret).len() == 44,
        ({
            let text = base64_text(secret);
            let head = sextet(text[4 * g]) * 262144 + sextet(text[4 * g + 1]) * 4096 + sextet(
                text[4 * g + 2],
            ) * 64;
            &&& sextet(text[4 * g]) >= 0 && sextet(text[4 * g + 1]) >= 0 && sextet(text[4 * g + 2])
                >= 0
            &&& g < 10 ==> sextet(text[4 * g + 3]) >= 0 && head + sextet(text[4 * g + 3])
                == secret[3 * g] * 65536 + secret[3 * g + 1] * 256 + secret[3 * g + 2]
            &&& g == 10 ==> text[43] == '=' && head == secret[30] * 65536 + secret[31] * 256
        }),
{
    let a = byte_or_zero(secret, 3 * g);
    let b = byte_or_zero(secret, 3 * g + 1);
    let c = byte_or_zero(secret, 3 * g + 2);
    let group = a * 65536 + b * 256 + c;
    lemma_group(a, b, c);
    lemma_group_text(secret, g);
    lemma_sextet(group / 262144);
    lemma_sextet(group / 4096 % 64);
    lemma_sextet(group / 64 % 64);
    lemma_sextet(group % 64);
}

/// A bridge is a manager unless it is told to be a node. A manager listens where
/// it is told to, a node connects where it is told to and nowhere else, and any
/// other role is refused by its name.
pub proof fn law_role_is_the_one_asked_for(
    cfg: SapientConfig,
    role: Result<SapientRole, SettingsError>,
)
    requires
        is_resolved_role(cfg, role),
    ensures
        role matches Ok(SapientRole::Hldmm { listen_addr }) ==> {
            &&& cfg.role is None || cfg.role->0@ == "hldmm"@
            &&& cfg.listen is Some ==> listen_addr@ == cfg.listen->0@
            &&& cfg.listen is None ==> listen_addr@ == "0.0.0.0:12000"@
        },
        role matches Ok(SapientRole::Dlmm { remote_addr, peer_node_id }) ==> {
            &&& cfg.role is Some && cfg.role->0@ == "dlmm"@
            &&& cfg.remote is Some && remote_addr@ == cfg.remote->0@
            &&& cfg.peer_node_id is Some ==> peer_node_id@ == cfg.peer_node_id->0@
            &&& cfg.peer_node_id is None ==> peer_node_id@ == "hldmm-0"@
        },
        role matches Err(e) ==> {
            &&& cfg.role is Some && cfg.role->0@ != "hldmm"@
            &&& cfg.role->0@ == "dlmm"@ ==> cfg.remote is None && e@
                == SettingsErrorModel::RemoteMissing
            &&& cfg.role->0@ != "dlmm"@ ==> e@ == SettingsErrorModel::UnknownRole(cfg.role->0@)
        },
        cfg.role is None ==> role is Ok,
{
    reveal_strlit("hldmm");
    reveal_strlit("dlmm");
    assert("hldmm"@.len() == 5 && "dlmm"@.len() == 4);
}

/// TLS is set up from the files that are configured and from no others. A manager
/// shows an identity. A node knows the authority of its manager, and shows its
/// whole identity or none.
pub proof fn law_tls_is_set_up_from_the_files(
    cfg: SapientConfig,
    role: SapientRole,
    files: Result<TlsFiles, SettingsError>,
)
    requires
        is_tls_setup(cfg, role, files),
    ensures
        files matches Ok(TlsFiles::Server { cert, key, ca_cert }) ==> {
            &&& role is Hldmm
            &&& Some(cert) == cfg.cert
            &&& Some(key) == cfg.key
            &&& ca_cert == cfg.ca_cert
        },
        files matches Ok(TlsFiles::Client { ca_cert, identity }) ==> {
            &&& role is Dlmm
            &&& Some(ca_cert) == cfg.ca_cert
            &&& identity matches Some(shown) ==> Some(shown.0) == cfg.cert && Some(shown.1)
                == cfg.key
            &&& identity is None ==> cfg.cert is None && cfg.key is None
        },
        files matches Err(e) ==> {
            ||| e@ == SettingsErrorModel::CertMissing && cfg.cert is None && (role is Hldmm
                || cfg.key is Some)
            ||| e@ == SettingsErrorModel::KeyMissing && cfg.key is None && cfg.cert is Some
            ||| e@ == SettingsErrorModel::CaCertMissing && cfg.ca_cert is None && role is Dlmm
                && (cfg.cert is Some <==> cfg.key is Some)
        },
        role is Hldmm && cfg.cert is Some && cfg.key is Some ==> files is Ok,
        role is Dlmm && cfg.ca_cert is Some && (cfg.cert is Some <==> cfg.key is Some)
            ==> files is Ok,
{
}

/// There is a connection to a TAK server just where one is configured, with TLS
/// just where that is asked for, and then with the whole identity; what is not
/// configured has its usual value.
pub proof fn law_tak_connection_is_the_one_asked_for(
    cfg: TakConfig,
    plan: Result<Option<TakPlan>, SettingsError>,
)
    requires
        is_tak_plan(cfg, plan),
    ensures
        plan matches Ok(None) <==> cfg.server is None,
        plan matches Ok(Some(p)) ==> {
            &&& cfg.server == Some(p.server)
            &&& p.use_tls <==> cfg.tls == Some(true)
            &&& p.identity is Some <==> p.use_tls
            &&& cfg.peer_node_id is Some ==> p.peer_node_id@ == cfg.peer_node_id->0@
            &&& cfg.peer_node_id is None ==> p.peer_node_id@ == "tak-server-0"@
            &&& cfg.max_message_bytes is Some ==> Some(p.max_message_bytes)
                == cfg.max_message_bytes
            &&& cfg.max_message_bytes is None ==> p.max_message_bytes == 64 * 1024
            &&& p.identity matches Some(i) ==> {
                &&& Some(i.client_cert) == cfg.client_cert
                &&& Some(i.client_key) == cfg.client_key
                &&& Some(i.ca_cert) == cfg.ca_cert
                &&& cfg.callsign is Some ==> i.callsign@ == cfg.callsign->0@
                &&& cfg.callsign is None ==> i.callsign@ == "Peat-BRIDGE"@
                &&& i.tls_server_name == cfg.tls_server_name
            }
        },
        plan matches Err(e) ==> {
            &&& cfg.server is Some && cfg.tls == Some(true)
            &&& {
                ||| e@ == SettingsErrorModel::TakCertMissing && cfg.client_cert is None
                ||| e@ == SettingsErrorModel::TakKeyMissing && cfg.client_cert is Some
                    && cfg.client_key is None
                ||| e@ == SettingsErrorModel::TakCaCertMissing && cfg.client_cert is Some
                    && cfg.client_key is Some && cfg.ca_cert is None
            }
        },
        cfg.tls != Some(true) ==> plan is Ok,
        cfg.client_cert is Some && cfg.client_key is Some && cfg.ca_cert is Some ==> plan is Ok,
{
}

/// Every refusal of a setting names the setting, and what was wrong with it.
pub proof fn law_refusals_name_the_setting(text: Seq<char>, n: nat)
    ensures
        settings_error_text(SettingsErrorModel::PeerWithoutAddress)
            == "--peer needs NODE_ID_HEX@ADDR (64 hex chars @ ip:port)"@,
        settings_error_text(SettingsErrorModel::PeerIdNotHex(text)) == "node id "@ + quoted_text(
            text,
        ) + " is not valid hex"@,
        settings_error_text(SettingsErrorModel::PeerIdLength(n)) == "node id has "@ + decimal(n)
            + " bytes, need 32 (64 hex chars)"@,
        settings_error_text(SettingsErrorModel::PeerAddress(text)) == quoted_text(text)
            + " is not a valid IP:PORT"@,
        settings_error_text(SettingsErrorModel::RemoteMissing)
            == "DLMM mode requires sapient.remote address"@,
        settings_error_text(SettingsErrorModel::UnknownRole(text)) == "unknown sapient.role: "@
            + quoted_text(text) + " (expected hldmm or dlmm)"@,
        settings_error_text(SettingsErrorModel::CertMissing)
            == "SAPIENT TLS requires --sapient-cert"@,
        settings_error_text(SettingsErrorModel::KeyMissing) == "SAPIENT TLS requires --sapient-key"@,
        settings_error_text(SettingsErrorModel::CaCertMissing)
            == "SAPIENT DLMM TLS requires --sapient-ca-cert"@,
        settings_error_text(SettingsErrorModel::TakCertMissing) == "TAK TLS requires --tak-cert"@,
        settings_error_text(SettingsErrorModel::TakKeyMissing) == "TAK TLS requires --tak-key"@,
        settings_error_text(SettingsErrorModel::TakCaCertMissing)
            == "TAK TLS requires --tak-ca-cert"@,
{
}

/// The sentence on a role says which it is and where it listens or connects.
pub proof fn law_role_is_described_by_its_addresses(role: SapientRole)
    ensures
        role matches SapientRole::Hldmm { listen_addr } ==> role_text(role)
            == "HLDMM listening on "@ + listen_addr@,
        role matches SapientRole::Dlmm { remote_addr, peer_node_id } ==> role_text(role)
            == "DLMM connecting to "@ + remote_addr@ + " as "@ + peer_node_id@,
{
}

} // verus!
