use se_rs_ial::dcb::DCB;
use se_rs_ial::handshake::{Action, Event, Phase};
use se_rs_ial::{BaudRate, ByteSize, Error, Parity, Setting, StopBits};

fn run(events: &[Event]) -> Option<(Phase, Vec<Action>)> {
    let mut phase = Phase::Unopened;
    let mut actions = Vec::new();
    for event in events {
        let (next, action) = phase.step(*event)?;
        phase = next;
        actions.push(action);
    }
    Some((phase, actions))
}

fn device_block() -> DCB {
    let mut block = DCB::zeroed();
    block.DCBlength = 28;
    block.BaudRate = 1200;
    block.ByteSize = 8;
    block.fBinary = true;
    block
}

#[test]
fn open_reads_then_writes_the_block() {
    let (phase, actions) = run(&[
        Event::Begin(BaudRate::B9600),
        Event::Opened,
        Event::BlockRead(device_block()),
        Event::BlockWritten,
    ])
    .unwrap();
    assert_eq!(phase, Phase::Open);
    assert_eq!(
        actions,
        vec![
            Action::OpenDevice,
            Action::ReadBlock(DCB::zeroed()),
            Action::WriteBlock(DCB { BaudRate: 9600, ..device_block() }),
            Action::Finish(Ok(())),
        ]
    );
}

#[test]
fn failed_open_reports_the_kind() {
    let begin = Event::Begin(BaudRate::B9600);
    let (phase, actions) = run(&[begin, Event::OpenFailed(2)]).unwrap();
    assert_eq!(phase, Phase::Closed { outcome: Err(Error::NotFound) });
    assert_eq!(actions, vec![Action::OpenDevice, Action::Finish(Err(Error::NotFound))]);
    let (phase, actions) = run(&[begin, Event::OpenFailed(5)]).unwrap();
    assert_eq!(phase, Phase::Closed { outcome: Err(Error::AlreadyInUse) });
    assert_eq!(actions[1], Action::Finish(Err(Error::AlreadyInUse)));
    let (phase, actions) = run(&[begin, Event::OpenFailed(31)]).unwrap();
    assert_eq!(phase, Phase::Closed { outcome: Err(Error::OpenFailed) });
    assert_eq!(actions[1], Action::Finish(Err(Error::OpenFailed)));
    assert!(!actions.contains(&Action::CloseHandle));
}

#[test]
fn failed_write_closes_the_handle_before_the_error() {
    let (phase, actions) = run(&[
        Event::Begin(BaudRate::B115200),
        Event::Opened,
        Event::BlockRead(device_block()),
        Event::WriteFailed(87),
    ])
    .unwrap();
    assert_eq!(phase, Phase::Closing { outcome: Err(Error::ConfigurationFailed) });
    assert_eq!(actions[3], Action::CloseHandle);
    let (phase, action) = phase.step(Event::HandleClosed).unwrap();
    assert_eq!(phase, Phase::Closed { outcome: Err(Error::ConfigurationFailed) });
    assert_eq!(action, Action::Finish(Err(Error::ConfigurationFailed)));
}

#[test]
fn failed_read_closes_the_handle_before_the_error() {
    let (phase, actions) = run(&[
        Event::Begin(BaudRate::B115200),
        Event::Opened,
        Event::ReadFailed(6),
        Event::HandleClosed,
    ])
    .unwrap();
    assert_eq!(phase, Phase::Closed { outcome: Err(Error::ConfigurationFailed) });
    assert_eq!(
        actions,
        vec![
            Action::OpenDevice,
            Action::ReadBlock(DCB::zeroed()),
            Action::CloseHandle,
            Action::Finish(Err(Error::ConfigurationFailed)),
        ]
    );
}

#[test]
fn release_closes_the_handle_once() {
    let (phase, actions) = run(&[
        Event::Begin(BaudRate::B300),
        Event::Opened,
        Event::BlockRead(device_block()),
        Event::BlockWritten,
        Event::Release,
        Event::HandleClosed,
    ])
    .unwrap();
    assert_eq!(phase, Phase::Closed { outcome: Ok(()) });
    assert_eq!(actions.iter().filter(|a| **a == Action::CloseHandle).count(), 1);
    assert_eq!(actions[5], Action::Finish(Ok(())));
}

#[test]
fn failed_close_stops_the_process() {
    let (phase, actions) = run(&[
        Event::Begin(BaudRate::B300),
        Event::Opened,
        Event::BlockRead(device_block()),
        Event::BlockWritten,
        Event::Release,
        Event::CloseFailed(6),
    ])
    .unwrap();
    assert_eq!(phase, Phase::Closing { outcome: Ok(()) });
    assert_eq!(actions[5], Action::Abort);
}

#[test]
fn events_out_of_place_are_refused() {
    assert_eq!(Phase::Unopened.step(Event::Opened), None);
    assert_eq!(Phase::Unopened.step(Event::Release), None);
    assert_eq!(Phase::Open.step(Event::Begin(BaudRate::B9600)), None);
    assert_eq!(Phase::Open.step(Event::HandleClosed), None);
    assert_eq!(Phase::Writing.step(Event::BlockRead(DCB::zeroed())), None);
    let closed = Phase::Closed { outcome: Ok(()) };
    for event in [
        Event::Begin(BaudRate::B9600),
        Event::Opened,
        Event::OpenFailed(2),
        Event::BlockRead(DCB::zeroed()),
        Event::ReadFailed(1),
        Event::BlockWritten,
        Event::WriteFailed(1),
        Event::Change(Setting::Size(ByteSize::B8)),
        Event::Inspect,
        Event::Release,
        Event::HandleClosed,
        Event::CloseFailed(1),
    ] {
        assert_eq!(closed.step(event), None);
    }
    assert_eq!(run(&[Event::Begin(BaudRate::B9600), Event::Opened, Event::Release]), None);
}

#[test]
fn setting_replaces_one_field() {
    let mut block = device_block();
    Setting::Rate(BaudRate::B57600).apply(&mut block);
    assert_eq!(block, DCB { BaudRate: 57600, ..device_block() });
    Setting::Size(ByteSize::B5).apply(&mut block);
    assert_eq!(block, DCB { BaudRate: 57600, ByteSize: 5, ..device_block() });
    Setting::Mode(Parity::Space).apply(&mut block);
    assert_eq!(block, DCB { BaudRate: 57600, ByteSize: 5, Parity: 4, ..device_block() });
    Setting::Stop(StopBits::B2).apply(&mut block);
    assert_eq!(
        block,
        DCB { BaudRate: 57600, ByteSize: 5, Parity: 4, StopBits: 2, ..device_block() }
    );
}

#[test]
fn change_reads_then_writes_one_setting() {
    let (phase, action) = Phase::Open.step(Event::Change(Setting::Mode(Parity::Mark))).unwrap();
    assert_eq!(phase, Phase::Changing { setting: Setting::Mode(Parity::Mark) });
    assert_eq!(action, Action::ReadBlock(DCB::zeroed()));
    let (phase, action) = phase.step(Event::BlockRead(device_block())).unwrap();
    assert_eq!(phase, Phase::Committing);
    assert_eq!(action, Action::WriteBlock(DCB { Parity: 3, ..device_block() }));
    let (phase, action) = phase.step(Event::BlockWritten).unwrap();
    assert_eq!(phase, Phase::Open);
    assert_eq!(action, Action::Finish(Ok(())));
}

#[test]
fn failed_change_leaves_the_connection_open() {
    let changing = Phase::Changing { setting: Setting::Rate(BaudRate::B1200) };
    assert_eq!(
        changing.step(Event::ReadFailed(6)),
        Some((Phase::Open, Action::Finish(Err(Error::ConfigurationFailed))))
    );
    assert_eq!(
        Phase::Committing.step(Event::WriteFailed(87)),
        Some((Phase::Open, Action::Finish(Err(Error::ConfigurationFailed))))
    );
}

#[test]
fn inspect_hands_the_block_to_the_caller() {
    let (phase, action) = Phase::Open.step(Event::Inspect).unwrap();
    assert_eq!(phase, Phase::Inspecting);
    assert_eq!(action, Action::ReadBlock(DCB::zeroed()));
    assert_eq!(
        phase.step(Event::BlockRead(device_block())),
        Some((Phase::Open, Action::Report(device_block())))
    );
    assert_eq!(
        phase.step(Event::ReadFailed(5)),
        Some((Phase::Open, Action::Finish(Err(Error::ConfigurationFailed))))
    );
    assert_eq!(device_block().baud_rate(), Ok(BaudRate::B1200));
}

#[test]
fn settings_need_an_open_connection() {
    let setting = Setting::Stop(StopBits::B1);
    for phase in [
        Phase::Unopened,
        Phase::Opening { baud_rate: BaudRate::B9600 },
        Phase::Reading { baud_rate: BaudRate::B9600 },
        Phase::Writing,
        Phase::Closing { outcome: Ok(()) },
        Phase::Closed { outcome: Ok(()) },
        Phase::Closed { outcome: Err(Error::NotFound) },
    ] {
        assert_eq!(phase.step(Event::Change(setting)), None);
        assert_eq!(phase.step(Event::Inspect), None);
    }
}

#[test]
fn changed_setting_is_found_by_the_next_inspection() {
    let (phase, _) = Phase::Open.step(Event::Change(Setting::Rate(BaudRate::B230400))).unwrap();
    let (_, action) = phase.step(Event::BlockRead(device_block())).unwrap();
    let written = match action {
        Action::WriteBlock(block) => block,
        other => panic!("unexpected action {:?}", other),
    };
    let (phase, _) = Phase::Open.step(Event::Inspect).unwrap();
    let (_, action) = phase.step(Event::BlockRead(written)).unwrap();
    match action {
        Action::Report(block) => assert_eq!(block.baud_rate(), Ok(BaudRate::B230400)),
        other => panic!("unexpected action {:?}", other),
    }
}
