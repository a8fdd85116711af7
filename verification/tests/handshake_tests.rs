use airoi::contacts::{add_contact, find_contact, Contact};
use airoi::error::AiroiError;
use airoi::frame::{read_frame, write_frame};
use airoi::key_gen::{generate_key_pair, get_fingerprint};
use airoi::keys::KeyPair;
use airoi::message::{receive_message, resolve_sender, tofu, TofuDecision};
use airoi::noise::{
    build_initiator, build_responder, finish_handshake, initiator_msg1, initiator_msg3,
    initiator_read_msg2, open_message, read_msg3, respond_to_msg1, seal_message,
};

/// Runs the three-message handshake between two identities in memory and
/// returns both transport states plus the static key each side learned.
fn run_handshake(
    initiator: &KeyPair,
    responder: &KeyPair,
) -> (
    snow::TransportState,
    Vec<u8>,
    snow::TransportState,
    Vec<u8>,
) {
    let mut ini = build_initiator(initiator.private_key().x25519_key_raw()).unwrap();
    let mut res = build_responder(responder.private_key().x25519_key_raw()).unwrap();

    let m1 = initiator_msg1(&mut ini).unwrap();
    let m2 = respond_to_msg1(&mut res, &m1).unwrap();
    initiator_read_msg2(&mut ini, &m2).unwrap();
    let m3 = initiator_msg3(&mut ini).unwrap();
    read_msg3(&mut res, &m3).unwrap();

    let (t_ini, learned_by_ini) = finish_handshake(ini).unwrap();
    let (t_res, learned_by_res) = finish_handshake(res).unwrap();
    (t_ini, learned_by_ini, t_res, learned_by_res)
}

#[test]
fn test_default_address() {
    assert_eq!(airoi::message::default_address(), "0.0.0.0:4444");
}

#[test]
fn test_full_handshake_and_transport() {
    let alice = generate_key_pair().unwrap();
    let bob = generate_key_pair().unwrap();

    let (mut t_bob, learned_by_bob, mut t_alice, learned_by_alice) = run_handshake(&bob, &alice);

    assert_eq!(learned_by_alice, bob.public_key().x25519_key_raw());
    assert_eq!(learned_by_bob, alice.public_key().x25519_key_raw());

    let to_alice = seal_message(&mut t_bob, "hi alice").unwrap();
    let plain = open_message(&mut t_alice, &to_alice).unwrap();
    assert_eq!(plain, b"hi alice");

    let to_bob = seal_message(&mut t_alice, "hi bob").unwrap();
    let plain = open_message(&mut t_bob, &to_bob).unwrap();
    assert_eq!(plain, b"hi bob");
}

#[test]
fn test_tampered_transport_frame_fails() {
    let alice = generate_key_pair().unwrap();
    let bob = generate_key_pair().unwrap();
    let (mut t_bob, _, mut t_alice, _) = run_handshake(&bob, &alice);

    let mut frame = seal_message(&mut t_bob, "hi").unwrap();
    frame[0] ^= 1;
    assert!(matches!(
        open_message(&mut t_alice, &frame),
        Err(AiroiError::Snow(_))
    ));
}

#[test]
fn test_unfinished_handshake_yields_no_transport() {
    let alice = generate_key_pair().unwrap();
    let ini = build_initiator(alice.private_key().x25519_key_raw()).unwrap();
    assert!(matches!(
        finish_handshake(ini),
        Err(AiroiError::RemoteStatic(_))
    ));
}

#[test]
fn test_known_contact_resolves() {
    let alice = generate_key_pair().unwrap();
    let bob = generate_key_pair().unwrap();

    let mut contacts: Vec<Contact> = Vec::new();
    add_contact(
        &mut contacts,
        Contact::new(
            "bob".to_string(),
            bob.public_key().ed25519_key_raw().to_vec(),
            "somewhere",
        )
        .unwrap(),
    );

    let (_t_bob, _l, _t_alice, learned_by_alice) = run_handshake(&bob, &alice);
    let sender = resolve_sender(&contacts, &learned_by_alice).unwrap();
    assert_eq!(sender.name, "bob");
}

#[test]
fn test_reject_policy_unknown_sender() {
    let alice = generate_key_pair().unwrap();
    let bob = generate_key_pair().unwrap();
    let contacts: Vec<Contact> = Vec::new();

    let (_t_bob, _l, _t_alice, learned_by_alice) = run_handshake(&bob, &alice);
    match resolve_sender(&contacts, &learned_by_alice) {
        Err(AiroiError::UnknownSender(fp)) => {
            assert_eq!(fp, get_fingerprint(&learned_by_alice));
        }
        other => panic!("expected unknown sender, got {:?}", other.map(|c| c.name)),
    }
}

#[test]
fn test_tofu_accept_persists_and_rematches() {
    let alice = generate_key_pair().unwrap();
    let bob = generate_key_pair().unwrap();
    let mut contacts: Vec<Contact> = Vec::new();

    let (_t_bob, _l, _t_alice, learned_by_alice) = run_handshake(&bob, &alice);
    assert!(resolve_sender(&contacts, &learned_by_alice).is_err());

    let accepted = tofu(
        &mut contacts,
        &learned_by_alice,
        "1.2.3.4:4444",
        TofuDecision::Accept {
            name: "bob".to_string(),
        },
    )
    .unwrap();
    assert_eq!(accepted.fingerprint_x(), get_fingerprint(&learned_by_alice));
    assert_eq!(contacts.len(), 1);

    // A second handshake from the same peer now matches without prompting.
    let (_t2, _l2, _t3, learned_again) = run_handshake(&bob, &alice);
    let sender = resolve_sender(&contacts, &learned_again).unwrap();
    assert_eq!(sender.name, "bob");
}

#[test]
fn test_tofu_decline_changes_nothing() {
    let mut contacts: Vec<Contact> = Vec::new();
    let r = tofu(&mut contacts, &vec![1, 2, 3], "addr", TofuDecision::Decline);
    assert!(matches!(r, Err(AiroiError::SenderNotTrusted(_))));
    assert!(contacts.is_empty());
}

#[test]
fn test_find_contact_matches_first_by_fingerprint() {
    let bob = generate_key_pair().unwrap();
    let mut contacts: Vec<Contact> = Vec::new();
    add_contact(
        &mut contacts,
        Contact::new(
            "first".to_string(),
            bob.public_key().ed25519_key_raw().to_vec(),
            "a",
        )
        .unwrap(),
    );
    add_contact(
        &mut contacts,
        Contact::new(
            "second".to_string(),
            bob.public_key().ed25519_key_raw().to_vec(),
            "b",
        )
        .unwrap(),
    );
    let fp = contacts[0].fingerprint_x().to_string();
    assert_eq!(find_contact(&contacts, &fp), Some(0));
    assert_eq!(find_contact(&contacts, "no such fingerprint"), None);
}

#[test]
fn test_lossy_decoding_replaces_invalid_bytes() {
    let sender = Contact::new_tofu("x".to_string(), vec![1], "a");
    let m = airoi::message::wrap_plaintext(&sender, &vec![0xff, 0xfe], "now".to_string());
    assert_eq!(m.message, "\u{FFFD}\u{FFFD}");
    let ok = airoi::message::wrap_plaintext(&sender, &b"plain".to_vec(), "now".to_string());
    assert_eq!(ok.message, "plain");
}

/// End to end in memory: identity A (responder) trusts "bob", whose
/// fingerprint matches identity B; B connects and sends "hello"; the
/// delivered message carries sender "bob" and text "hello".  Every
/// handshake and transport message crosses the wire as one frame.
#[test]
fn test_end_to_end_delivery() {
    let a = generate_key_pair().unwrap();
    let b = generate_key_pair().unwrap();

    let mut contacts: Vec<Contact> = Vec::new();
    add_contact(
        &mut contacts,
        Contact::new(
            "bob".to_string(),
            b.public_key().ed25519_key_raw().to_vec(),
            "remote",
        )
        .unwrap(),
    );

    let mut ini = build_initiator(b.private_key().x25519_key_raw()).unwrap();
    let mut res = build_responder(a.private_key().x25519_key_raw()).unwrap();

    // B -> A: frame 1.
    let mut wire: Vec<u8> = Vec::new();
    let m1 = initiator_msg1(&mut ini).unwrap();
    write_frame(&mut wire, &m1).unwrap();
    let (m1_rx, _) = read_frame(&wire, 0).unwrap();

    // A -> B: frame 2.
    let m2 = respond_to_msg1(&mut res, &m1_rx).unwrap();
    let mut wire2: Vec<u8> = Vec::new();
    write_frame(&mut wire2, &m2).unwrap();
    let (m2_rx, _) = read_frame(&wire2, 0).unwrap();
    initiator_read_msg2(&mut ini, &m2_rx).unwrap();

    // B -> A: frame 3, then the application message.
    let m3 = initiator_msg3(&mut ini).unwrap();
    let mut wire3: Vec<u8> = Vec::new();
    write_frame(&mut wire3, &m3).unwrap();
    let (mut t_b, _) = finish_handshake(ini).unwrap();
    let cipher = seal_message(&mut t_b, "hello").unwrap();
    write_frame(&mut wire3, &cipher).unwrap();

    let (m3_rx, pos) = read_frame(&wire3, 0).unwrap();
    read_msg3(&mut res, &m3_rx).unwrap();
    let (mut t_a, remote_static) = finish_handshake(res).unwrap();
    let sender = resolve_sender(&contacts, &remote_static).unwrap();

    let (app_frame, _) = read_frame(&wire3, pos).unwrap();
    let delivered = receive_message(&mut t_a, &app_frame, &sender).unwrap();
    assert_eq!(delivered.sender.name, "bob");
    assert_eq!(delivered.message, "hello");
}

/// One identity talking to itself over an in-memory wire, as the
/// original integration flow does: the contact list holds "test-self",
/// the handshake matches it, and "test message" is delivered.
#[test]
fn test_send_and_receive() {
    let keypair = generate_key_pair().unwrap();
    let mut contacts: Vec<Contact> = Vec::new();
    add_contact(
        &mut contacts,
        Contact::new(
            "test-self".to_string(),
            keypair.public_key().ed25519_key_raw().to_vec(),
            "127.0.0.1:0",
        )
        .unwrap(),
    );

    let (mut t_send, _l, mut t_recv, learned) = run_handshake(&keypair, &keypair);
    let sender = resolve_sender(&contacts, &learned).unwrap();
    assert_eq!(sender.name, "test-self");

    let frame = seal_message(&mut t_send, "test message").unwrap();
    let received = receive_message(&mut t_recv, &frame, &sender).unwrap();
    assert_eq!(received.message, "test message");
}
