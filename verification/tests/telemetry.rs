use motorctl::debug::tx_complete_callback;
use motorctl::context::CriticalSection;
use motorctl::context::IrqCtx;
use motorctl::debug;
use motorctl::debug::DebugLog;
use motorctl::fixpt::Fixpt;

fn frame(log: &mut DebugLog) -> Vec<u8> {
    let mut bytes = Vec::new();
    for _ in 0..30 {
        bytes.push(tx_complete_callback(&IrqCtx::new(), log, true).unwrap());
    }
    bytes
}

#[test]
fn telemetry_frame_layout() {
    let mut log = DebugLog::new();
    debug::Debug::Speedo.log_u16(&CriticalSection::new(), &mut log, 0x1234);
    debug::Debug::MonDebounce.log_u8(&CriticalSection::new(), &mut log, 0x56);
    debug::Debug::PidY.log_fixpt(&CriticalSection::new(), &mut log, Fixpt::from_q(-2));
    debug::Debug::MaxRt.log_u16(&CriticalSection::new(), &mut log, 0xFFFE);
    assert_eq!(log.value(debug::Debug::Speedo), 0x1234);
    assert_eq!(log.value(debug::Debug::PidY), 0xFFFE);
    let expected: Vec<u8> = vec![
        0, 0x34, 0x12, //
        1, 0, 0, //
        2, 0, 0, //
        3, 0xFE, 0xFF, //
        4, 0x56, 0, //
        5, 0, 0, //
        6, 0, 0, //
        7, 0, 0, //
        8, 0xFE, 0xFF, //
        0xFF, 0xFF, 0xFF,
    ];
    assert_eq!(frame(&mut log), expected);
    // The frame repeats.
    assert_eq!(frame(&mut log), expected);
}

#[test]
fn telemetry_waits_for_the_transmitter() {
    let mut log = DebugLog::new();
    debug::Debug::Speedo.log_u16(&CriticalSection::new(), &mut log, 0xABCD);
    assert_eq!(tx_complete_callback(&IrqCtx::new(), &mut log, false), None);
    assert_eq!(tx_complete_callback(&IrqCtx::new(), &mut log, true), Some(0));
    assert_eq!(tx_complete_callback(&IrqCtx::new(), &mut log, false), None);
    assert_eq!(tx_complete_callback(&IrqCtx::new(), &mut log, false), None);
    assert_eq!(tx_complete_callback(&IrqCtx::new(), &mut log, true), Some(0xCD));
    // A value logged in the middle of a record is sent as it is then.
    debug::Debug::Speedo.log_u16(&CriticalSection::new(), &mut log, 0x1122);
    assert_eq!(tx_complete_callback(&IrqCtx::new(), &mut log, true), Some(0x11));
    assert_eq!(tx_complete_callback(&IrqCtx::new(), &mut log, true), Some(1));
}

#[test]
fn telemetry_channel_ids() {
    assert_eq!(debug::Debug::Speedo.id(), 0);
    assert_eq!(debug::Debug::SpeedoStatus.id(), 1);
    assert_eq!(debug::Debug::Setpoint.id(), 2);
    assert_eq!(debug::Debug::PidY.id(), 3);
    assert_eq!(debug::Debug::MonDebounce.id(), 4);
    assert_eq!(debug::Debug::TempMot.id(), 5);
    assert_eq!(debug::Debug::TempUc.id(), 6);
    assert_eq!(debug::Debug::MinStack.id(), 7);
    assert_eq!(debug::Debug::MaxRt.id(), 8);
    let mut log = DebugLog::new();
    debug::Debug::TempUc.log_fixpt(&CriticalSection::new(), &mut log, Fixpt::from_q(i16::MIN));
    assert_eq!(log.value(debug::Debug::TempUc), 0x8000);
    debug::Debug::TempUc.log_fixpt(&CriticalSection::new(), &mut log, Fixpt::from_q(i16::MAX));
    assert_eq!(log.value(debug::Debug::TempUc), 0x7FFF);
}

#[test]
fn bits_are_reversed() {
    assert_eq!(debug::bit_rev(0x01), 0x80);
    assert_eq!(debug::bit_rev(0x80), 0x01);
    assert_eq!(debug::bit_rev(0x0F), 0xF0);
    assert_eq!(debug::bit_rev(0xA5), 0xA5);
    assert_eq!(debug::bit_rev(0x13), 0xC8);
    for v in 0..=255u8 {
        assert_eq!(debug::bit_rev(v), v.reverse_bits());
        assert_eq!(debug::bit_rev(debug::bit_rev(v)), v);
    }
}

#[test]
fn records_are_parsed() {
    assert_eq!(
        debug::SerDat::parse(&[0, 0x34, 0x12]),
        Ok(debug::SerDat::Value(debug::Debug::Speedo, 0x1234))
    );
    assert_eq!(
        debug::SerDat::parse(&[4, 0x56, 0]),
        Ok(debug::SerDat::Value(debug::Debug::MonDebounce, 0x56))
    );
    assert_eq!(
        debug::SerDat::parse(&[8, 0xFF, 0xFF]),
        Ok(debug::SerDat::Value(debug::Debug::MaxRt, 0xFFFF))
    );
    assert_eq!(debug::SerDat::parse(&[0xFF, 0xFF, 0xFF]), Ok(debug::SerDat::Sync));
    assert_eq!(debug::SerDat::parse(&[0xFF, 1, 2]), Ok(debug::SerDat::Sync));
}

#[test]
fn unknown_records_are_refused() {
    assert_eq!(
        debug::SerDat::parse(&[9, 0, 0]),
        Err(debug::ParseError::UnknownCommand(9))
    );
    assert_eq!(
        debug::SerDat::parse(&[0xFE, 0xFF, 0xFF]),
        Err(debug::ParseError::UnknownCommand(0xFE))
    );
    assert_eq!(debug::ParseError::UnknownCommand(9).message(), "unknown command");
}

/// What the transmitter sends, the receiver reads back.
#[test]
fn telemetry_round_trip() {
    let mut log = DebugLog::new();
    let cs = CriticalSection::new();
    debug::Debug::Speedo.log_u16(&cs, &mut log, 0x1234);
    debug::Debug::Setpoint.log_fixpt(&cs, &mut log, Fixpt::from_q(-300));
    debug::Debug::MinStack.log_u16(&cs, &mut log, 77);
    // The receiver starts in the middle of the stream.
    let mut stream: Vec<u8> = Vec::new();
    for _ in 0..3 {
        stream.extend(frame(&mut log));
    }
    let mut sync = debug::Synchronizer::new();
    let mut pos = 7;
    loop {
        let state = sync.push(stream[pos]);
        pos += 1;
        if state == debug::SyncState::Synchronized {
            break;
        }
        assert!(state == debug::SyncState::Searching);
    }
    // The end mark of the first frame ends at byte 30.
    assert_eq!(pos, 30);
    let mut seen = Vec::new();
    while pos + 3 <= 60 {
        let buf = [stream[pos], stream[pos + 1], stream[pos + 2]];
        seen.push(debug::SerDat::parse(&buf).unwrap());
        pos += 3;
    }
    assert_eq!(seen.len(), 10);
    assert_eq!(seen[0], debug::SerDat::Value(debug::Debug::Speedo, 0x1234));
    assert_eq!(seen[2], debug::SerDat::Value(debug::Debug::Setpoint, (-300i16) as u16));
    assert_eq!(seen[7], debug::SerDat::Value(debug::Debug::MinStack, 77));
    assert_eq!(seen[8], debug::SerDat::Value(debug::Debug::MaxRt, 0));
    assert_eq!(seen[9], debug::SerDat::Sync);
}

#[test]
fn end_mark_search_gives_up() {
    let mut sync = debug::Synchronizer::new();
    assert!(!sync.failed());
    assert!(sync.push(0xFF) == debug::SyncState::Searching);
    assert!(sync.push(0xFF) == debug::SyncState::Searching);
    // 128 windows without an end mark are tolerated.
    for _ in 0..128 {
        assert!(!sync.failed());
        assert!(sync.push(0x00) == debug::SyncState::Searching);
    }
    assert!(sync.push(0xFF) == debug::SyncState::Failed);
    assert!(sync.failed());

    // An end mark resets the count.
    let mut sync = debug::Synchronizer::new();
    for _ in 0..100 {
        sync.push(1);
    }
    sync.push(0xFF);
    sync.push(0xFF);
    assert!(sync.push(0xFF) == debug::SyncState::Synchronized);
    for _ in 0..100 {
        assert!(sync.push(1) == debug::SyncState::Searching);
    }
    assert!(!sync.failed());
}
