//! Identities and authorities of TLS, read from PEM files.

use crate::error::{ErrorModel, SapientError};
use crate::text::joined;
use tokio_rustls::rustls::pki_types::PrivateKeyDer;
use vstd::prelude::*;

verus! {

/// How a private key is encoded.
#[derive(Clone, Copy, Debug, PartialEq, Eq, Structural)]
pub enum KeyKind {
    Pkcs1,
    Sec1,
    Pkcs8,
    /// An encoding that this library has no name for.
    Other,
}

/// A private key.
#[derive(Clone, PartialEq, Eq)]
pub struct PrivateKey {
    pub kind: KeyKind,
    pub der: Vec<u8>,
}

impl View for PrivateKey {
    type V = (KeyKind, Seq<u8>);

    open spec fn view(&self) -> (KeyKind, Seq<u8>) {
        (self.kind, self.der@)
    }
}

/// Certificates, in the order of their file.
#[derive(Clone, Debug, PartialEq, Eq)]
pub struct Certificates {
    pub ders: Vec<Vec<u8>>,
}

impl View for Certificates {
    type V = Seq<Seq<u8>>;

    open spec fn view(&self) -> Seq<Seq<u8>> {
        self.ders@.map_values(|der: Vec<u8>| der@)
    }
}

/// Certificates of a peer with the key that goes with them.
#[derive(Clone, PartialEq, Eq)]
pub struct Identity {
    pub certs: Certificates,
    pub key: PrivateKey,
}

/// What an [`Identity`] holds.
#[verifier::ext_equal]
pub struct IdentityModel {
    pub certs: Seq<Seq<u8>>,
    pub key: (KeyKind, Seq<u8>),
}

impl View for Identity {
    type V = IdentityModel;

    open spec fn view(&self) -> IdentityModel {
        IdentityModel { certs: self.certs@, key: self.key@ }
    }
}

/// What a server needs for TLS.
#[derive(Clone, PartialEq, Eq)]
pub struct ServerSetup {
    pub identity: Identity,
    /// The certificates that clients are verified against, if they are.
    pub client_authority: Option<Certificates>,
}

/// What a [`ServerSetup`] holds.
#[verifier::ext_equal]
pub struct ServerSetupModel {
    pub identity: IdentityModel,
    pub client_authority: Option<Seq<Seq<u8>>>,
}

impl View for ServerSetup {
    type V = ServerSetupModel;

    open spec fn view(&self) -> ServerSetupModel {
        ServerSetupModel {
            identity: self.identity@,
            client_authority: match self.client_authority {
                Some(certs) => Some(certs@),
                None => None,
            },
        }
    }
}

/// A side of a TLS connection.
#[derive(Clone, Copy, Debug, PartialEq, Eq, Structural)]
pub enum Side {
    Client,
    Server,
}

/// The sections of a PEM text that hold a certificate or are in error, in order:
/// the certificate, or what is wrong.
pub uninterp spec fn pem_certificates(pem: Seq<u8>) -> Seq<Result<Seq<u8>, Seq<char>>>;

/// The first private key of a PEM text, if there is one, or what is wrong before
/// it.
pub uninterp spec fn pem_private_key(pem: Seq<u8>) -> Result<
    Option<(KeyKind, Seq<u8>)>,
    Seq<char>,
>;

/// What the sections of a PEM text hold.
pub open spec fn sections_view(sections: Seq<Result<Vec<u8>, String>>) -> Seq<
    Result<Seq<u8>, Seq<char>>,
> {
    sections.map_values(
        |section: Result<Vec<u8>, String>|
            match section {
                Ok(der) => Ok::<Seq<u8>, Seq<char>>(der@),
                Err(error) => Err::<Seq<u8>, Seq<char>>(error@),
            },
    )
}

/// What a search for a private key found.
pub open spec fn found_view(found: Result<Option<PrivateKey>, String>) -> Result<
    Option<(KeyKind, Seq<u8>)>,
    Seq<char>,
> {
    match found {
        Ok(Some(key)) => Ok(Some(key@)),
        Ok(None) => Ok(None),
        Err(error) => Err(error@),
    }
}

/// `rustls_pemfile::certs`: the certificates of a PEM text, and its sections in
/// error; how PEM is decoded is not spelled out.
#[verifier::external_body]
fn read_certs(pem: &[u8]) -> (sections: Vec<Result<Vec<u8>, String>>)
    ensures
        sections_view(sections@) == pem_certificates(pem@),
{
    let mut rest = pem;
    rustls_pemfile::certs(&mut rest)
        .map(|section| section.map(|cert| cert.to_vec()).map_err(|error| error.to_string()))
        .collect()
}

/// `rustls_pemfile::private_key`: the first private key of a PEM text; how PEM
/// is decoded is not spelled out.
#[verifier::external_body]
fn read_private_key(pem: &[u8]) -> (found: Result<Option<PrivateKey>, String>)
    ensures
        found_view(found) == pem_private_key(pem@),
{
    let mut rest = pem;
    let found = rustls_pemfile::private_key(&mut rest).map_err(|error| error.to_string())?;
    Ok(found.map(|key| PrivateKey {
        kind: match &key {
            PrivateKeyDer::Pkcs1(_) => KeyKind::Pkcs1,
            PrivateKeyDer::Sec1(_) => KeyKind::Sec1,
            PrivateKeyDer::Pkcs8(_) => KeyKind::Pkcs8,
            _ => KeyKind::Other,
        },
        der: key.secret_der().to_vec(),
    }))
}

/// A result is what its model says.
pub open spec fn agrees<T: View>(
    result: Result<T, SapientError>,
    model: Result<T::V, ErrorModel>,
) -> bool {
    match (result, model) {
        (Ok(value), Ok(expected)) => value@ == expected,
        (Err(error), Err(expected)) => error@ == expected,
        _ => false,
    }
}

/// What a file holds, or why it could not be read.
pub open spec fn file_view(file: Result<Vec<u8>, SapientError>) -> Result<Seq<u8>, ErrorModel> {
    match file {
        Ok(pem) => Ok(pem@),
        Err(error) => Err(error@),
    }
}

/// The first error among sections.
pub open spec fn first_error(sections: Seq<Result<Seq<u8>, Seq<char>>>) -> Option<Seq<char>>
    decreases sections.len(),
{
    if sections.len() == 0 {
        None
    } else {
        match sections[0] {
            Err(error) => Some(error),
            Ok(_) => first_error(sections.skip(1)),
        }
    }
}

/// The certificates of sections, or their first error, labelled.
pub open spec fn certs_in(
    sections: Seq<Result<Seq<u8>, Seq<char>>>,
    label: Seq<char>,
) -> Result<Seq<Seq<u8>>, ErrorModel> {
    match first_error(sections) {
        Some(error) => Err(ErrorModel::ConnectionFailed(label + error)),
        None => Ok(sections.map_values(|section: Result<Seq<u8>, Seq<char>>| section->Ok_0)),
    }
}

/// The key that a search found, or what went wrong.
pub open spec fn key_in(found: Result<Option<(KeyKind, Seq<u8>)>, Seq<char>>) -> Result<
    (KeyKind, Seq<u8>),
    ErrorModel,
> {
    match found {
        Ok(Some(key)) => Ok(key),
        Ok(None) => Err(ErrorModel::ConnectionFailed("no private key found in PEM file"@)),
        Err(error) => Err(ErrorModel::ConnectionFailed("parse key PEM: "@ + error)),
    }
}

/// The certificates of a file.
pub open spec fn certs_loaded(file: Result<Seq<u8>, ErrorModel>, label: Seq<char>) -> Result<
    Seq<Seq<u8>>,
    ErrorModel,
> {
    match file {
        Ok(pem) => certs_in(pem_certificates(pem), label),
        Err(error) => Err(error),
    }
}

/// The private key of a file.
pub open spec fn key_loaded(file: Result<Seq<u8>, ErrorModel>) -> Result<
    (KeyKind, Seq<u8>),
    ErrorModel,
> {
    match file {
        Ok(pem) => key_in(pem_private_key(pem)),
        Err(error) => Err(error),
    }
}

/// The identity of two files. The certificates are looked at first.
pub open spec fn identity_loaded(
    cert: Result<Seq<u8>, ErrorModel>,
    key: Result<Seq<u8>, ErrorModel>,
) -> Result<IdentityModel, ErrorModel> {
    match certs_loaded(cert, "parse cert PEM: "@) {
        Err(error) => Err(error),
        Ok(certs) => match key_loaded(key) {
            Err(error) => Err(error),
            Ok(key) => Ok(IdentityModel { certs, key }),
        },
    }
}

/// What an error in an authority's file begins with.
pub open spec fn authority_label(side: Side) -> Seq<char> {
    match side {
        Side::Client => "parse CA cert PEM: "@,
        Side::Server => "parse CA cert: "@,
    }
}

/// A server's setup. The identity is looked at first; clients are verified if
/// and only if there is a file of their authority.
pub open spec fn server_loaded(
    cert: Result<Seq<u8>, ErrorModel>,
    key: Result<Seq<u8>, ErrorModel>,
    authority: Option<Result<Seq<u8>, ErrorModel>>,
) -> Result<ServerSetupModel, ErrorModel> {
    match identity_loaded(cert, key) {
        Err(error) => Err(error),
        Ok(identity) => match authority {
            None => Ok(ServerSetupModel { identity, client_authority: None }),
            Some(file) => match certs_loaded(file, authority_label(Side::Server)) {
                Err(error) => Err(error),
                Ok(certs) => Ok(ServerSetupModel { identity, client_authority: Some(certs) }),
            },
        },
    }
}

/// The certificates of the sections of a PEM text, or the first error among them
/// behind a label.
pub fn certs_of(sections: Vec<Result<Vec<u8>, String>>, label: &str) -> (certs: Result<
    Certificates,
    SapientError,
>)
    ensures
        agrees(certs, certs_in(sections_view(sections@), label@)),
{
    let ghost model = sections_view(sections@);
    let mut ders: Vec<Vec<u8>> = Vec::new();
    let mut i: usize = 0;
    proof {
        assert(model.skip(0) =~= model);
    }
    while i < sections.len()
        invariant
            i <= sections.len(),
            model == sections_view(sections@),
            ders.len() == i,
            first_error(model) == first_error(model.skip(i as int)),
            forall|j: int| 0 <= j < i ==> model[j] == Ok::<Seq<u8>, Seq<char>>(#[trigger] ders[j]@),
        decreases sections.len() - i,
    {
        proof {
            assert(model.skip(i as int)[0] == model[i as int]);
            assert(model.skip(i as int).skip(1) =~= model.skip(i + 1));
        }
        match &sections[i] {
            Ok(der) => {
                let copy = der.clone();
                assert(copy@ =~= der@);
                ders.push(copy);
            },
            Err(error) => {
                return Err(SapientError::ConnectionFailed(joined(label, error.as_str())));
            },
        }
        i += 1;
    }
    let certs = Certificates { ders };
    proof {
        assert(model.skip(i as int).len() == 0);
        assert(certs@ =~= model.map_values(|section: Result<Seq<u8>, Seq<char>>| section->Ok_0));
    }
    Ok(certs)
}

/// The key that a search found; an error if it found none or failed.
pub fn key_of(found: Result<Option<PrivateKey>, String>) -> (key: Result<PrivateKey, SapientError>)
    ensures
        agrees(key, key_in(found_view(found))),
{
    match found {
        Ok(Some(key)) => Ok(key),
        Ok(None) => Err(
            SapientError::ConnectionFailed("no private key found in PEM file".to_string()),
        ),
        Err(error) => Err(
            SapientError::ConnectionFailed(joined("parse key PEM: ", error.as_str())),
        ),
    }
}

/// The certificates of a PEM file, with a label for an error in it.
fn load_certs(file: Result<Vec<u8>, SapientError>, label: &str) -> (certs: Result<
    Certificates,
    SapientError,
>)
    ensures
        agrees(certs, certs_loaded(file_view(file), label@)),
{
    match file {
        Ok(pem) => certs_of(read_certs(pem.as_slice()), label),
        Err(error) => Err(error),
    }
}

/// The private key of a PEM file.
fn load_key(file: Result<Vec<u8>, SapientError>) -> (key: Result<PrivateKey, SapientError>)
    ensures
        agrees(key, key_loaded(file_view(file))),
{
    match file {
        Ok(pem) => key_of(read_private_key(pem.as_slice())),
        Err(error) => Err(error),
    }
}

/// The identity that two PEM files hold.
pub fn load_identity(cert: Result<Vec<u8>, SapientError>, key: Result<Vec<u8>, SapientError>) -> (
identity: Result<Identity, SapientError>)
    ensures
        agrees(identity, identity_loaded(file_view(cert), file_view(key))),
{
    let certs = match load_certs(cert, "parse cert PEM: ") {
        Ok(certs) => certs,
        Err(error) => return Err(error),
    };
    match load_key(key) {
        Ok(key) => Ok(Identity { certs, key }),
        Err(error) => Err(error),
    }
}

/// The authority that a PEM file holds, for one side of a connection.
pub fn load_authority(file: Result<Vec<u8>, SapientError>, side: Side) -> (certs: Result<
    Certificates,
    SapientError,
>)
    ensures
        agrees(certs, certs_loaded(file_view(file), authority_label(side))),
{
    match side {
        Side::Client => load_certs(file, "parse CA cert PEM: "),
        Side::Server => load_certs(file, "parse CA cert: "),
    }
}

/// What a server needs for TLS. Clients are verified if and only if an authority
/// is given.
pub fn server_setup(
    cert: Result<Vec<u8>, SapientError>,
    key: Result<Vec<u8>, SapientError>,
    authority: Option<Result<Vec<u8>, SapientError>>,
) -> (setup: Result<ServerSetup, SapientError>)
    ensures
        agrees(
            setup,
            server_loaded(
                file_view(cert),
                file_view(key),
                match authority {
                    Some(file) => Some(file_view(file)),
                    None => None,
                },
            ),
        ),
        setup matches Ok(s) ==> (s.client_authority is Some <==> authority is Some),
{
    let identity = match load_identity(cert, key) {
        Ok(identity) => identity,
        Err(error) => return Err(error),
    };
    match authority {
        None => Ok(ServerSetup { identity, client_authority: None }),
        Some(file) => match load_authority(file, Side::Server) {
            Ok(certs) => Ok(ServerSetup { identity, client_authority: Some(certs) }),
            Err(error) => Err(error),
        },
    }
}

/// The first error among sections goes part by part: a section in error is the
/// first, and of two rows the first one comes first.
pub proof fn law_first_error_comes_first(
    head: Seq<Result<Seq<u8>, Seq<char>>>,
    tail: Seq<Result<Seq<u8>, Seq<char>>>,
)
    ensures
        first_error(Seq::empty()) is None,
        first_error(head) is Some ==> first_error(head + tail) == first_error(head),
        first_error(head) is None ==> first_error(head + tail) == first_error(tail),
    decreases head.len(),
{
    if head.len() == 0 {
        assert(head + tail =~= tail);
    } else {
        law_first_error_comes_first(head.skip(1), tail);
        assert((head + tail)[0] == head[0]);
        assert((head + tail).skip(1) =~= head.skip(1) + tail);
    }
}

proof fn lemma_no_error(sections: Seq<Result<Seq<u8>, Seq<char>>>)
    ensures
        first_error(sections) is None <==> forall|i: int|
            0 <= i < sections.len() ==> (#[trigger] sections[i]) is Ok,
        first_error(sections) matches Some(error) ==> exists|i: int|
            0 <= i < sections.len() && #[trigger] sections[i] == Err::<Seq<u8>, Seq<char>>(error)
                && forall|j: int| 0 <= j < i ==> (#[trigger] sections[j]) is Ok,
    decreases sections.len(),
{
    if sections.len() > 0 {
        let rest = sections.skip(1);
        lemma_no_error(rest);
        if sections[0] is Ok {
            if first_error(rest) is None {
                assert forall|i: int| 0 <= i < sections.len() implies (
                #[trigger] sections[i]) is Ok by {
                    if i > 0 {
                        assert(rest[i - 1] is Ok);
                    }
                }
            } else {
                let error = first_error(rest)->0;
                let i = choose|i: int|
                    0 <= i < rest.len() && #[trigger] rest[i] == Err::<Seq<u8>, Seq<char>>(error)
                        && forall|j: int| 0 <= j < i ==> (#[trigger] rest[j]) is Ok;
                assert(sections[i + 1] == Err::<Seq<u8>, Seq<char>>(error));
                assert forall|j: int| 0 <= j < i + 1 implies (#[trigger] sections[j]) is Ok by {
                    if j > 0 {
                        assert(rest[j - 1] is Ok);
                    }
                }
            }
        } else {
            assert(sections[0] == Err::<Seq<u8>, Seq<char>>(sections[0]->Err_0));
        }
    }
}

/// All certificates of a file are taken, in their order, and none where a section
/// is in error: then it says what is wrong with the first such section.
pub proof fn law_certificates_are_all_or_none(
    sections: Seq<Result<Seq<u8>, Seq<char>>>,
    label: Seq<char>,
)
    ensures
        certs_in(sections, label) is Ok <==> forall|i: int|
            0 <= i < sections.len() ==> (#[trigger] sections[i]) is Ok,
        certs_in(sections, label) matches Ok(certs) ==> certs.len() == sections.len() && forall|
            i: int,
        |
            0 <= i < certs.len() ==> sections[i] == Ok::<Seq<u8>, Seq<char>>(#[trigger] certs[i]),
        certs_in(sections, label) matches Err(e) ==> exists|i: int|
            0 <= i < sections.len() && (#[trigger] sections[i]) is Err && e
                == ErrorModel::ConnectionFailed(label + sections[i]->Err_0) && forall|j: int|
                0 <= j < i ==> (#[trigger] sections[j]) is Ok,
{
    lemma_no_error(sections);
    if first_error(sections) is Some {
        let error = first_error(sections)->0;
        let i = choose|i: int|
            0 <= i < sections.len() && #[trigger] sections[i] == Err::<Seq<u8>, Seq<char>>(error)
                && forall|j: int| 0 <= j < i ==> (#[trigger] sections[j]) is Ok;
        assert(sections[i] is Err);
    }
}

/// An identity is the certificates of one file with the key of the other. Where one
/// cannot be had it says so: a file that cannot be read by its own error, and
/// anything else by a failed connection. The certificates are looked at first.
pub proof fn law_identity_is_that_of_the_files(
    cert: Result<Seq<u8>, ErrorModel>,
    key: Result<Seq<u8>, ErrorModel>,
)
    ensures
        identity_loaded(cert, key) matches Ok(identity) ==> {
            &&& cert matches Ok(pem) && pem_certificates(pem).len() == identity.certs.len()
                && forall|i: int|
                0 <= i < identity.certs.len() ==> pem_certificates(pem)[i] == Ok::<
                    Seq<u8>,
                    Seq<char>,
                >(#[trigger] identity.certs[i])
            &&& key matches Ok(pem) && pem_private_key(pem) == Ok::<
                Option<(KeyKind, Seq<u8>)>,
                Seq<char>,
            >(Some(identity.key))
        },
        cert matches Err(e) ==> identity_loaded(cert, key) == Err::<IdentityModel, ErrorModel>(e),
        key matches Err(e) ==> identity_loaded(cert, key) is Err,
        cert matches Ok(pem) ==> {
            let sections = pem_certificates(pem);
            let whole = forall|i: int| 0 <= i < sections.len() ==> (#[trigger] sections[i]) is Ok;
            &&& !whole ==> identity_loaded(cert, key) is Err
            &&& whole ==> match key {
                Err(e) => identity_loaded(cert, key) == Err::<IdentityModel, ErrorModel>(e),
                Ok(text) => match pem_private_key(text) {
                    Ok(Some(_)) => identity_loaded(cert, key) is Ok,
                    Ok(None) => identity_loaded(cert, key) == Err::<IdentityModel, ErrorModel>(
                        ErrorModel::ConnectionFailed("no private key found in PEM file"@),
                    ),
                    Err(error) => identity_loaded(cert, key) == Err::<IdentityModel, ErrorModel>(
                        ErrorModel::ConnectionFailed("parse key PEM: "@ + error),
                    ),
                },
            }
        },
{
    if cert is Ok {
        law_certificates_are_all_or_none(pem_certificates(cert->Ok_0), "parse cert PEM: "@);
    }
}

/// A label tells which file is in error: that of a certificate, of the authority
/// of a server's clients, or of the authority of a client's server.
pub proof fn law_label_tells_the_file(
    cert: Seq<u8>,
    key: Result<Seq<u8>, ErrorModel>,
    error: Seq<char>,
    side: Side,
)
    requires
        pem_certificates(cert).len() > 0,
        pem_certificates(cert)[0] == Err::<Seq<u8>, Seq<char>>(error),
    ensures
        identity_loaded(Ok(cert), key) == Err::<IdentityModel, ErrorModel>(
            ErrorModel::ConnectionFailed("parse cert PEM: "@ + error),
        ),
        certs_loaded(Ok(cert), authority_label(side)) == Err::<Seq<Seq<u8>>, ErrorModel>(
            ErrorModel::ConnectionFailed(
                (if side == Side::Client {
                    "parse CA cert PEM: "@
                } else {
                    "parse CA cert: "@
                }) + error,
            ),
        ),
{
}

/// A server shows the identity of its files, and verifies its clients just where
/// there is a file of their authority, against all certificates of that file. It
/// never goes without either because of an error.
pub proof fn law_server_verifies_clients_if_told_to(
    cert: Result<Seq<u8>, ErrorModel>,
    key: Result<Seq<u8>, ErrorModel>,
    authority: Option<Result<Seq<u8>, ErrorModel>>,
)
    ensures
        server_loaded(cert, key, authority) matches Ok(setup) ==> {
            &&& identity_loaded(cert, key) == Ok::<IdentityModel, ErrorModel>(setup.identity)
            &&& authority is None <==> setup.client_authority is None
            &&& authority matches Some(file) ==> (file matches Ok(pem) && {
                &&& setup.client_authority->0.len() == pem_certificates(pem).len()
                &&& forall|i: int|
                    0 <= i < pem_certificates(pem).len() ==> pem_certificates(pem)[i] == Ok::<
                        Seq<u8>,
                        Seq<char>,
                    >(#[trigger] setup.client_authority->0[i])
            })
        },
        identity_loaded(cert, key) matches Err(e) ==> server_loaded(cert, key, authority) == Err::<
            ServerSetupModel,
            ErrorModel,
        >(e),
        identity_loaded(cert, key) is Ok && authority is None ==> server_loaded(
            cert,
            key,
            authority,
        ) is Ok,
        identity_loaded(cert, key) is Ok ==> (authority matches Some(Err(e)) ==> server_loaded(
            cert,
            key,
            authority,
        ) == Err::<ServerSetupModel, ErrorModel>(e)),
        identity_loaded(cert, key) is Ok ==> (authority matches Some(Ok(pem)) ==> (server_loaded(
            cert,
            key,
            authority,
        ) is Ok <==> forall|i: int|
            0 <= i < pem_certificates(pem).len() ==> (#[trigger] pem_certificates(pem)[i]) is Ok)),
{
    match authority {
        Some(Ok(pem)) => law_certificates_are_all_or_none(
            pem_certificates(pem),
            authority_label(Side::Server),
        ),
        _ => {},
    }
}

} // verus!
