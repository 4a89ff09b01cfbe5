use handshake::solana::transport::tls::{
    create_tls_config, public_trust_anchors, root_store, tls_config, TrustAnchor,
};

fn anchor(subject: &[u8], spki: &[u8], name_constraints: Option<&[u8]>) -> TrustAnchor {
    TrustAnchor {
        subject: subject.to_vec(),
        spki: spki.to_vec(),
        name_constraints: name_constraints.map(|bytes| bytes.to_vec()),
    }
}

#[test]
fn root_store_holds_no_anchor_of_none() {
    let store = root_store(&Vec::new());
    assert!(store.is_empty());
    assert_eq!(store.len(), 0);
}

#[test]
fn root_store_holds_the_anchors_in_order() {
    let roots = vec![
        anchor(&[1, 2, 3], &[4, 5], None),
        anchor(&[6], &[7, 8, 9], Some(&[10])),
        anchor(&[11, 12], &[13], None),
    ];
    let store = root_store(&roots);
    assert_eq!(store.len(), 3);
    // A subject is kept inside a DER sequence: a tag, a length, the subject.
    assert_eq!(store.roots[0].subject().as_ref(), vec![0x30u8, 3, 1, 2, 3].as_slice());
    assert_eq!(store.roots[1].subject().as_ref(), vec![0x30u8, 1, 6].as_slice());
    assert_eq!(store.roots[2].subject().as_ref(), vec![0x30u8, 2, 11, 12].as_slice());
}

#[test]
fn public_trust_anchors_are_those_of_the_bundle() {
    let anchors = public_trust_anchors();
    let bundle = webpki_roots::TLS_SERVER_ROOTS.0;
    assert!(!anchors.is_empty());
    assert_eq!(anchors.len(), bundle.len());
    for (anchor, root) in anchors.iter().zip(bundle.iter()) {
        assert_eq!(anchor.subject.as_slice(), root.subject);
        assert_eq!(anchor.spki.as_slice(), root.spki);
        assert_eq!(anchor.name_constraints.as_deref(), root.name_constraints);
    }
}

#[test]
fn root_store_of_the_public_anchors_holds_them_all() {
    let anchors = public_trust_anchors();
    assert_eq!(root_store(&anchors).len(), anchors.len());
}

#[test]
fn tls_config_offers_no_client_certificate() {
    let config = tls_config(&vec![anchor(&[1], &[2], None)]);
    assert!(!config.client_auth_cert_resolver.has_certs());
    let config = create_tls_config();
    assert!(!config.client_auth_cert_resolver.has_certs());
    assert!(config.enable_sni);
}

#[test]
fn tls_config_of_any_roots_offers_no_client_certificate() {
    assert!(!tls_config(&Vec::new()).client_auth_cert_resolver.has_certs());
    let roots = public_trust_anchors();
    assert!(!tls_config(&roots).client_auth_cert_resolver.has_certs());
}
