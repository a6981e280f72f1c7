//! The single-slot channel: publish and restore, overwriting, the stop
//! flag, the capacity limit, and the environment handshake.

use llmp_restarting::channel::StateRestorer;
use llmp_restarting::codec::{CheckpointPayload, EndpointDescription};
use llmp_restarting::error::SupervisionError;

fn payload(state: Option<Vec<u8>>, client_id: u64, resume_offset: u64) -> CheckpointPayload {
    CheckpointPayload {
        state,
        descriptor: EndpointDescription { client_id, resume_offset },
    }
}

#[test]
fn fresh_channel_has_no_content() {
    let c = StateRestorer::new(1024);
    assert!(!c.has_content());
    assert!(c.restore().is_none());
    assert!(!c.wants_to_exit());
}

#[test]
fn restore_returns_last_published_payload() {
    let mut c = StateRestorer::new(1024);
    c.save(&payload(Some(vec![1, 2, 3]), 11, 4)).unwrap();
    assert!(c.has_content());
    let p = c.restore().unwrap();
    assert_eq!(p.state.unwrap(), vec![1, 2, 3]);
    assert_eq!(p.descriptor, EndpointDescription { client_id: 11, resume_offset: 4 });
}

#[test]
fn reset_empties_the_slot() {
    let mut c = StateRestorer::new(1024);
    c.save(&payload(Some(vec![7]), 1, 1)).unwrap();
    c.reset();
    assert!(!c.has_content());
    assert!(c.restore().is_none());
}

#[test]
fn publish_overwrites_the_whole_payload() {
    // Both halves the reader sees come from the latest publish; nothing of
    // the earlier payload shines through.
    let mut c = StateRestorer::new(1024);
    c.save(&payload(Some(vec![1; 30]), 1, 10)).unwrap();
    c.reset();
    c.save(&payload(None, 2, 20)).unwrap();
    let p = c.restore().unwrap();
    assert!(p.state.is_none());
    assert_eq!(p.descriptor, EndpointDescription { client_id: 2, resume_offset: 20 });
}

#[test]
fn publish_that_does_not_fit_is_rejected() {
    let mut c = StateRestorer::new(10);
    let e = c.save(&payload(None, 1, 1));
    assert_eq!(e, Err(SupervisionError::PayloadTooLarge));
    assert!(!c.has_content());

    // The fixed header just fits a 17-byte region.
    let mut c = StateRestorer::new(17);
    c.save(&payload(None, 1, 1)).unwrap();
    assert!(c.has_content());
    c.reset();
    let e = c.save(&payload(Some(vec![1]), 1, 1));
    assert_eq!(e, Err(SupervisionError::PayloadTooLarge));
}

#[test]
fn send_exiting_sets_flag_and_keeps_slot() {
    let mut c = StateRestorer::new(1024);
    c.save(&payload(Some(vec![5]), 3, 3)).unwrap();
    c.send_exiting();
    assert!(c.wants_to_exit());
    assert!(c.has_content());
    assert_eq!(c.restore().unwrap().state.unwrap(), vec![5]);
}

#[test]
fn env_handshake_round_trips_channel() {
    let mut c = StateRestorer::new(512);
    c.save(&payload(Some(vec![9, 8, 7]), 21, 2)).unwrap();
    c.send_exiting();

    let exported = c.to_env_description();
    let imported = StateRestorer::from_env_description(exported.as_slice()).unwrap();
    assert!(imported.has_content());
    assert!(imported.wants_to_exit());
    let p = imported.restore().unwrap();
    assert_eq!(p.state.unwrap(), vec![9, 8, 7]);
    assert_eq!(p.descriptor, EndpointDescription { client_id: 21, resume_offset: 2 });
}

#[test]
fn env_handshake_round_trips_empty_channel() {
    let c = StateRestorer::new(64);
    let imported = StateRestorer::from_env_description(c.to_env_description().as_slice())
        .unwrap();
    assert!(!imported.has_content());
    assert!(!imported.wants_to_exit());
}

#[test]
fn malformed_description_is_rejected() {
    // Too short to carry the region size and the stop flag.
    assert!(StateRestorer::from_env_description(&[1, 2, 3]).is_none());

    // Stop flag byte out of range.
    let mut bad_flag: Vec<u8> = vec![64, 0, 0, 0, 0, 0, 0, 0];
    bad_flag.push(2);
    assert!(StateRestorer::from_env_description(bad_flag.as_slice()).is_none());

    // Slot longer than the declared region.
    let mut overfull: Vec<u8> = vec![1, 0, 0, 0, 0, 0, 0, 0];
    overfull.push(0);
    overfull.extend_from_slice(&[0; 17]);
    assert!(StateRestorer::from_env_description(overfull.as_slice()).is_none());

    // Slot bytes that are not one decodable payload.
    let mut garbage: Vec<u8> = vec![64, 0, 0, 0, 0, 0, 0, 0];
    garbage.push(0);
    garbage.extend_from_slice(&[9, 9, 9]);
    assert!(StateRestorer::from_env_description(garbage.as_slice()).is_none());
}
