use rustun::addr::SocketAddress;
use rustun::channel::ChannelPoll;
use rustun::client::{
    call_command, cast_command, Client, ClientDriver, Command, CommandStep, DriverStep,
};
use rustun::error::{Error, ErrorKind};

fn peer_a() -> SocketAddress {
    SocketAddress::v4(0x7f00_0001, 3478)
}

fn peer_b() -> SocketAddress {
    SocketAddress::v6(1, 5349)
}

fn failed_driver() -> ClientDriver {
    let mut driver = ClientDriver::new();
    let step = driver.on_channel_poll::<()>(ChannelPoll::Failed(Error::new(ErrorKind::Transport)));
    assert_eq!(step, DriverStep::Yield);
    driver
}

#[test]
fn call_over_working_channel_is_forwarded() {
    let driver = ClientDriver::new();
    let step = driver.handle_command::<u32, u8, u64>(Command::Call(peer_a(), 7, 99));
    assert!(matches!(step, CommandStep::ForwardCall(p, 7, 99) if p == peer_a()));
}

#[test]
fn cast_over_working_channel_is_forwarded() {
    let driver = ClientDriver::new();
    let step = driver.handle_command::<u32, u8, u64>(Command::Cast(peer_b(), 3));
    assert!(matches!(step, CommandStep::ForwardCast(p, 3) if p == peer_b()));
}

#[test]
fn call_after_failure_gets_stored_error() {
    let driver = failed_driver();
    assert_eq!(driver.failure(), Some(Error::new(ErrorKind::Transport)));
    let step = driver.handle_command::<u32, u8, u64>(Command::Call(peer_a(), 7, 5));
    assert!(matches!(step, CommandStep::Fail(5, e) if e.kind() == ErrorKind::Transport));
}

#[test]
fn cast_after_failure_is_dropped() {
    let driver = failed_driver();
    let step = driver.handle_command::<u32, u8, u64>(Command::Cast(peer_a(), 1));
    assert!(matches!(step, CommandStep::Discard));
}

#[test]
fn batch_keeps_order_and_slots() {
    let driver = ClientDriver::new();
    let commands: Vec<Command<u32, u8, u64>> = vec![
        Command::Call(peer_a(), 1, 10),
        Command::Cast(peer_b(), 2),
        Command::Call(peer_b(), 3, 30),
    ];
    let steps = driver.handle_commands(commands);
    assert_eq!(steps.len(), 3);
    assert!(matches!(steps[0], CommandStep::ForwardCall(p, 1, 10) if p == peer_a()));
    assert!(matches!(steps[1], CommandStep::ForwardCast(p, 2) if p == peer_b()));
    assert!(matches!(steps[2], CommandStep::ForwardCall(p, 3, 30) if p == peer_b()));
}

#[test]
fn batch_after_failure_fails_every_call() {
    let driver = failed_driver();
    let commands: Vec<Command<u32, u8, u64>> = vec![
        Command::Call(peer_a(), 1, 10),
        Command::Cast(peer_b(), 2),
        Command::Call(peer_b(), 3, 30),
    ];
    let steps = driver.handle_commands(commands);
    assert_eq!(steps.len(), 3);
    assert!(matches!(steps[0], CommandStep::Fail(10, _)));
    assert!(matches!(steps[1], CommandStep::Discard));
    assert!(matches!(steps[2], CommandStep::Fail(30, _)));
}

#[test]
fn empty_batch_gives_no_steps() {
    let driver = ClientDriver::new();
    let steps = driver.handle_commands::<u32, u8, u64>(Vec::new());
    assert!(steps.is_empty());
}

#[test]
fn closed_queue_with_nothing_outstanding_finishes() {
    let mut driver = ClientDriver::new();
    assert!(driver.on_commands_closed(0));
    assert!(driver.commands_closed());
}

#[test]
fn closed_queue_with_outstanding_keeps_running() {
    let mut driver = ClientDriver::new();
    assert!(!driver.on_commands_closed(2));
    assert!(!driver.on_commands_closed(usize::MAX));
}

#[test]
fn closed_queue_after_failure_finishes() {
    let mut driver = failed_driver();
    assert!(driver.on_commands_closed(0));
    assert!(driver.on_commands_closed(4));
}

#[test]
fn channel_polls_of_a_working_driver() {
    let mut driver = ClientDriver::new();
    assert_eq!(driver.on_channel_poll::<u8>(ChannelPoll::Pending), DriverStep::Yield);
    assert_eq!(driver.on_channel_poll(ChannelPoll::Ready(9u8)), DriverStep::Continue);
    assert_eq!(driver.failure(), None);
}

#[test]
fn channel_end_with_open_queue_keeps_driver() {
    let mut driver = ClientDriver::new();
    assert_eq!(driver.on_channel_poll::<u8>(ChannelPoll::Closed), DriverStep::Yield);
    assert_eq!(driver.failure(), Some(Error::new(ErrorKind::ChannelUnavailable)));
    let step = driver.handle_command::<u32, u8, u64>(Command::Call(peer_a(), 7, 5));
    assert!(matches!(step, CommandStep::Fail(5, e) if e.kind() == ErrorKind::ChannelUnavailable));
    assert!(driver.on_commands_closed(3));
}

#[test]
fn channel_end_after_queue_closed_finishes() {
    let mut driver = ClientDriver::new();
    assert!(!driver.on_commands_closed(1));
    assert_eq!(driver.on_channel_poll(ChannelPoll::Ready(2u8)), DriverStep::Continue);
    assert_eq!(driver.on_channel_poll::<u8>(ChannelPoll::Closed), DriverStep::Finish);
}

#[test]
fn channel_failure_after_queue_closed_finishes() {
    let mut driver = ClientDriver::new();
    assert!(!driver.on_commands_closed(1));
    let step = driver.on_channel_poll::<u8>(ChannelPoll::Failed(Error::new(ErrorKind::Transport)));
    assert_eq!(step, DriverStep::Finish);
}

#[test]
fn failed_channel_is_not_polled_again() {
    let mut driver = failed_driver();
    assert_eq!(driver.on_channel_poll(ChannelPoll::Ready(1u8)), DriverStep::Yield);
    assert_eq!(driver.on_channel_poll::<u8>(ChannelPoll::Closed), DriverStep::Yield);
    assert_eq!(
        driver.on_channel_poll::<u8>(ChannelPoll::Failed(Error::new(ErrorKind::Other))),
        DriverStep::Yield
    );
    assert_eq!(driver.failure(), Some(Error::new(ErrorKind::Transport)));
}

#[test]
fn cast_after_driver_gone_fails_fast() {
    let (tx, rx) = fibers::sync::mpsc::channel::<Command<u32, u8, u64>>();
    let client = Client::new(tx);
    drop(rx);
    assert_eq!(
        client.cast(peer_a(), 1),
        Err(Error::new(ErrorKind::ChannelUnavailable))
    );
    assert_eq!(
        client.call(peer_a(), 2, 3),
        Err(Error::new(ErrorKind::ChannelUnavailable))
    );
}

#[test]
fn commands_reach_live_driver() {
    let (tx, rx) = fibers::sync::mpsc::channel::<Command<u32, u8, u64>>();
    let client = Client::new(tx);
    let other = client.clone();
    assert_eq!(client.cast(peer_a(), 1), Ok(()));
    assert_eq!(other.call(peer_b(), 2, 3), Ok(()));
    drop(rx);
    assert!(other.cast(peer_a(), 1).is_err());
}

#[test]
fn commands_carry_caller_arguments() {
    let c = call_command::<u32, u8, u64>(peer_b(), 12, 34);
    assert!(matches!(c, Command::Call(p, 12, 34) if p == peer_b()));
    let c = cast_command::<u32, u8, u64>(peer_a(), 5);
    assert!(matches!(c, Command::Cast(p, 5) if p == peer_a()));
}
