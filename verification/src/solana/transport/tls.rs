//! The TLS client that a secure raw socket is wrapped in: whom it trusts.

use rustls::{ClientConfig, RootCertStore};
use vstd::prelude::*;

verus! {

/// `rustls::RootCertStore`, carried through without a look inside.
#[verifier::external_type_specification]
#[verifier::external_body]
pub struct ExRootCertStore(rustls::RootCertStore);

/// `rustls::ClientConfig`, carried through without a look inside.
#[verifier::external_type_specification]
#[verifier::external_body]
pub struct ExClientConfig(rustls::ClientConfig);

/// A root of trust, by the DER encodings that make it up.
#[derive(Debug)]
pub struct TrustAnchor {
    /// The subject, without its outer sequence.
    pub subject: Vec<u8>,
    /// The public key.
    pub spki: Vec<u8>,
    /// The name constraints, where the anchor has any.
    pub name_constraints: Option<Vec<u8>>,
}

/// What a [`TrustAnchor`] holds.
pub struct TrustAnchorView {
    pub subject: Seq<u8>,
    pub spki: Seq<u8>,
    pub name_constraints: Option<Seq<u8>>,
}

impl View for TrustAnchor {
    type V = TrustAnchorView;

    open spec fn view(&self) -> TrustAnchorView {
        TrustAnchorView {
            subject: self.subject@,
            spki: self.spki@,
            name_constraints: match self.name_constraints {
                Some(bytes) => Some(bytes@),
                None => None,
            },
        }
    }
}

/// The trust anchors that a store holds, in the order in which they were
/// added, each by what it was made from.
pub uninterp spec fn anchors_of(store: RootCertStore) -> Seq<TrustAnchorView>;

/// The trust anchors against which a client configuration verifies the
/// certificate of a server.
pub uninterp spec fn trusted_by(config: ClientConfig) -> Seq<TrustAnchorView>;

/// Whether a client configuration has a certificate to offer to a server that
/// asks for one: what `has_certs` says of its `client_auth_cert_resolver`.
pub uninterp spec fn offers_client_certificate(config: ClientConfig) -> bool;

/// The trust anchors of a store that holds none.
pub open spec fn no_anchors() -> Seq<TrustAnchorView> {
    Seq::empty()
}

/// What each of `anchors` holds, in order.
pub open spec fn anchor_views(anchors: Seq<TrustAnchor>) -> Seq<TrustAnchorView> {
    Seq::new(anchors.len(), |i: int| anchors[i]@)
}

/// The root at a place in `webpki_roots::TLS_SERVER_ROOTS`, the public root
/// certificates that Mozilla trusts, and none where the bundle holds no root
/// at that place.
pub uninterp spec fn public_root(index: nat) -> Option<TrustAnchorView>;

/// What an anchor holds, if there is one.
pub open spec fn some_view(anchor: Option<TrustAnchor>) -> Option<TrustAnchorView> {
    match anchor {
        Some(anchor) => Some(anchor@),
        None => None,
    }
}

/// Whether `anchors` are the public root certificates: every root of the
/// bundle at its place, up to the first place at which the bundle holds none.
pub open spec fn is_public_bundle(anchors: Seq<TrustAnchorView>) -> bool {
    &&& forall|i: int| 0 <= i < anchors.len() ==> public_root(i as nat) == Some(#[trigger] anchors[i])
    &&& public_root(anchors.len()) is None
}

/// There is one sequence of public root certificates and no other.
pub proof fn lemma_public_bundle_is_one(first: Seq<TrustAnchorView>, second: Seq<TrustAnchorView>)
    requires
        is_public_bundle(first),
        is_public_bundle(second),
    ensures
        first == second,
{
    if first.len() < second.len() {
        assert(public_root(first.len()) == Some(second[first.len() as int]));
    } else if second.len() < first.len() {
        assert(public_root(second.len()) == Some(first[second.len() as int]));
    } else {
        assert forall|i: int| 0 <= i < first.len() implies first[i] == second[i] by {
            assert(public_root(i as nat) == Some(first[i]));
            assert(public_root(i as nat) == Some(second[i]));
        }
        assert(first =~= second);
    }
}

/// Reads the root at `index` off `webpki_roots::TLS_SERVER_ROOTS`, by its
/// subject, its public key and its name constraints; none where the bundle
/// is shorter. The bundle is a constant, so the root is a function of the
/// place.
#[verifier::external_body]
fn public_root_at(index: usize) -> (root: Option<TrustAnchor>)
    ensures
        some_view(root) == public_root(index as nat),
{
    webpki_roots::TLS_SERVER_ROOTS.0.get(index).map(|anchor| TrustAnchor {
        subject: anchor.subject.to_vec(),
        spki: anchor.spki.to_vec(),
        name_constraints: anchor.name_constraints.map(|bytes| bytes.to_vec()),
    })
}

/// `rustls::RootCertStore::empty`: a store that holds no trust anchor.
#[verifier::external_body]
fn empty_store() -> (store: RootCertStore)
    ensures
        anchors_of(store) == no_anchors(),
{
    RootCertStore::empty()
}

/// `rustls::RootCertStore::add_trust_anchors`, for the one anchor that
/// `rustls::OwnedTrustAnchor::from_subject_spki_name_constraints` makes of
/// `anchor`: the store then holds it after those it held.
#[verifier::external_body]
fn add_anchor(store: &mut RootCertStore, anchor: &TrustAnchor)
    ensures
        anchors_of(*final(store)) == anchors_of(*old(store)).push(anchor@),
{
    store.add_trust_anchors(std::iter::once(
        rustls::OwnedTrustAnchor::from_subject_spki_name_constraints(
            anchor.subject.clone(),
            anchor.spki.clone(),
            anchor.name_constraints.clone(),
        ),
    ));
}

/// `rustls::ClientConfig::builder`, with the safe defaults, the given root
/// certificates and no client certificate: the configuration verifies a
/// server against the anchors of the store, and has no certificate to offer.
#[verifier::external_body]
fn client_config(store: RootCertStore) -> (config: ClientConfig)
    ensures
        trusted_by(config) == anchors_of(store),
        !offers_client_certificate(config),
{
    ClientConfig::builder().with_safe_defaults().with_root_certificates(store).with_no_client_auth()
}

/// A store that holds exactly `roots`, in their order.
pub fn root_store(roots: &Vec<TrustAnchor>) -> (store: RootCertStore)
    ensures
        anchors_of(store) == anchor_views(roots@),
{
    let mut store = empty_store();
    let mut added: usize = 0;
    while added < roots.len()
        invariant
            added <= roots.len(),
            anchors_of(store) == anchor_views(roots@.take(added as int)),
        decreases roots.len() - added,
    {
        add_anchor(&mut store, &roots[added]);
        assert(anchor_views(roots@.take(added as int)).push(roots@[added as int]@)
            =~= anchor_views(roots@.take(added + 1)));
        added = added + 1;
    }
    assert(roots@.take(added as int) =~= roots@);
    store
}

/// A client configuration that trusts exactly `roots` and offers no client
/// certificate.
pub fn tls_config(roots: &Vec<TrustAnchor>) -> (config: ClientConfig)
    ensures
        trusted_by(config) == anchor_views(roots@),
        !offers_client_certificate(config),
{
    client_config(root_store(roots))
}

/// The public root certificates in the order of their bundle, each by its
/// subject, its public key and its name constraints.
pub fn public_trust_anchors() -> (anchors: Vec<TrustAnchor>)
    ensures
        is_public_bundle(anchor_views(anchors@)),
{
    let mut anchors: Vec<TrustAnchor> = Vec::new();
    let mut index: usize = 0;
    loop
        invariant
            anchors@.len() == index,
            forall|i: int|
                0 <= i < index ==> public_root(i as nat) == Some(
                    #[trigger] anchor_views(anchors@)[i],
                ),
        ensures
            is_public_bundle(anchor_views(anchors@)),
        decreases usize::MAX - index,
    {
        match public_root_at(index) {
            Some(anchor) => {
                let ghost before = anchors@;
                anchors.push(anchor);
                let count: usize = anchors.len();
                assert forall|i: int| 0 <= i < count implies public_root(i as nat) == Some(
                    #[trigger] anchor_views(anchors@)[i],
                ) by {
                    if i < index {
                        assert(anchor_views(before)[i] == anchor_views(anchors@)[i]);
                    }
                }
                index = count;
            },
            None => {
                break ;
            },
        }
    }
    anchors
}

/// The client configuration of the secure raw socket: it trusts the public
/// root certificates, all of them and no other, and offers no client
/// certificate.
pub fn create_tls_config() -> (config: ClientConfig)
    ensures
        is_public_bundle(trusted_by(config)),
        !offers_client_certificate(config),
{
    tls_config(&public_trust_anchors())
}

} // verus!
