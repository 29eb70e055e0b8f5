use tenebra::transfer::{
    cancel_transfer_message, frame_chunk, outbound_step, split_chunk, transfer_ready_message,
    InboundEvent, InboundPhase, InboundProgress, InboundTransfer, OutboundEvent, OutboundPhase,
    OutboundStep, OutboundTransfer, TransferAction, TransferNotice, CHUNK_SIZE,
};

fn json(bytes: &[u8]) -> serde_json::Value {
    serde_json::from_slice(bytes).unwrap()
}

#[test]
fn inbound_transfer_of_two_chunks() {
    let ready = transfer_ready_message(7, None);
    assert_eq!(ready, br#"{"id":7,"type":"transferready"}"#.to_vec());
    let v = json(&ready);
    assert_eq!(v["type"], "transferready");
    assert_eq!(v["id"], 7);

    let mut progress = InboundProgress::new(2048);
    let mut file = Vec::new();
    for seed in 0..2u8 {
        let chunk = vec![seed; 1024];
        let message = frame_chunk(7, &chunk);
        assert_eq!(&message[..4], &[0, 0, 0, 7]);
        let (id, bytes) = split_chunk(&message).unwrap();
        assert_eq!(id, 7);
        file.extend_from_slice(&bytes);
        let done = progress.on_chunk(bytes.len());
        assert_eq!(done, seed == 1);
    }
    assert_eq!(file.len(), 2048);
    assert_eq!(progress.received, 2048);
}

#[test]
fn control_messages_are_json() {
    let ready = transfer_ready_message(4294967295, Some(18446744073709551615));
    let v = json(&ready);
    assert_eq!(v["type"], "transferready");
    assert_eq!(v["id"], 4294967295u64);
    assert_eq!(v["size"], 18446744073709551615u64);
    assert_eq!(cancel_transfer_message(0), br#"{"id":0,"type":"canceltransfer"}"#.to_vec());
    assert_eq!(
        transfer_ready_message(12, Some(2048)),
        br#"{"id":12,"size":2048,"type":"transferready"}"#.to_vec()
    );
}

#[test]
fn chunk_id_is_big_endian() {
    assert_eq!(frame_chunk(0x01020304, &[9]), vec![1, 2, 3, 4, 9]);
    assert_eq!(split_chunk(&[1, 2, 3, 4]), Some((0x01020304, vec![])));
    assert_eq!(split_chunk(&[1, 2, 3]), None);
    assert_eq!(split_chunk(&[]), None);
}

#[test]
fn inbound_progress_saturates() {
    let mut p = InboundProgress::new(u64::MAX);
    p.received = u64::MAX - 1;
    assert!(p.on_chunk(10));
    assert_eq!(p.received, u64::MAX);
    let mut p = InboundProgress::new(0);
    assert!(p.on_chunk(0));
}

#[test]
fn outbound_steps() {
    assert_eq!(CHUNK_SIZE, 1024);
    assert_eq!(outbound_step(5, Some(&[1, 2])), OutboundStep::Send(vec![0, 0, 0, 5, 1, 2]));
    assert_eq!(outbound_step(5, Some(&[])), OutboundStep::Finished);
    assert_eq!(outbound_step(5, None), OutboundStep::Cancel);
}

#[test]
fn inbound_transfer_accepted_and_completed() {
    let mut t = InboundTransfer::new(7, 2048);
    assert_eq!(t.on_event(InboundEvent::PathChosen), vec![]);
    assert_eq!(
        t.on_event(InboundEvent::FileCreated),
        vec![TransferAction::Register, TransferAction::SendReady { size: None }]
    );
    assert_eq!(t.on_event(InboundEvent::ChunkWritten(1024)), vec![]);
    assert_eq!(
        t.on_event(InboundEvent::ChunkWritten(1024)),
        vec![
            TransferAction::Unregister,
            TransferAction::Notify(TransferNotice::Finished { bytes: 2048, size: 2048 }),
        ]
    );
    assert_eq!(t.phase, InboundPhase::Done);
    assert_eq!(t.on_event(InboundEvent::ChunkWritten(1)), vec![]);
}

#[test]
fn inbound_transfer_failures() {
    let mut t = InboundTransfer::new(1, 10);
    assert_eq!(t.on_event(InboundEvent::DialogCancelled), vec![TransferAction::SendCancel]);
    assert_eq!(t.phase, InboundPhase::Done);

    let mut t = InboundTransfer::new(1, 10);
    t.on_event(InboundEvent::PathChosen);
    assert_eq!(
        t.on_event(InboundEvent::CreateFailed),
        vec![TransferAction::Notify(TransferNotice::CreateFailed), TransferAction::SendCancel]
    );

    let mut t = InboundTransfer::new(1, 10);
    t.on_event(InboundEvent::PathChosen);
    t.on_event(InboundEvent::FileCreated);
    assert_eq!(t.phase, InboundPhase::Receiving(InboundProgress { size: 10, received: 0 }));
    assert_eq!(
        t.on_event(InboundEvent::WriteFailed),
        vec![
            TransferAction::Unregister,
            TransferAction::SendCancel,
            TransferAction::Notify(TransferNotice::WriteFailed),
        ]
    );
}

#[test]
fn outbound_transfer_flow() {
    let mut t = OutboundTransfer::new(3);
    assert_eq!(t.on_event(OutboundEvent::PathChosen), vec![]);
    assert_eq!(
        t.on_event(OutboundEvent::Opened { size: 5000 }),
        vec![TransferAction::SendReady { size: Some(5000) }]
    );
    assert_eq!(t.phase, OutboundPhase::Sending { size: 5000 });
    assert_eq!(
        t.on_event(OutboundEvent::EndOfFile),
        vec![
            TransferAction::Notify(TransferNotice::Finished { bytes: 5000, size: 5000 }),
            TransferAction::Unregister,
        ]
    );

    let mut t = OutboundTransfer::new(3);
    assert_eq!(
        t.on_event(OutboundEvent::DialogCancelled),
        vec![TransferAction::SendCancel, TransferAction::Unregister]
    );

    let mut t = OutboundTransfer::new(3);
    t.on_event(OutboundEvent::PathChosen);
    assert_eq!(
        t.on_event(OutboundEvent::OpenFailed),
        vec![
            TransferAction::Notify(TransferNotice::OpenFailed),
            TransferAction::SendCancel,
            TransferAction::Unregister,
        ]
    );

    let mut t = OutboundTransfer::new(3);
    t.on_event(OutboundEvent::PathChosen);
    t.on_event(OutboundEvent::Opened { size: 1 });
    assert_eq!(
        t.on_event(OutboundEvent::ReadFailed),
        vec![TransferAction::SendCancel, TransferAction::Unregister]
    );
}
