use std::sync::mpsc;
use tetris::models::{MoveCommand, TurnEvent};
use tetris::turn_timer::turn_timer::{TimerStatus, TurnTimerSubscriberTrait};
use tetris::ui::{
    map_event, read_outcome, run_user_input_step, CommandCollector, CommandRead, InputEvent, Key,
    KeyAction, PollReport,
};

struct TestTurnTimerSubscriber {
    outputs: Vec<TimerStatus>,
}

impl TurnTimerSubscriberTrait for TestTurnTimerSubscriber {
    fn get_timer_status(&mut self) -> TimerStatus {
        self.outputs.pop().unwrap_or(TimerStatus::TimerComplete)
    }
}

struct TestCommandCollector {
    outputs: Vec<std::io::Result<Option<MoveCommand>>>,
}

impl CommandCollector for TestCommandCollector {
    fn new() -> Self {
        Self { outputs: vec![] }
    }
    fn get_command(&mut self) -> std::io::Result<Option<MoveCommand>> {
        match self.outputs.pop() {
            Some(val) => val,
            None => Ok(None),
        }
    }
}

fn run_user_input_loop<T: CommandCollector, U: TurnTimerSubscriberTrait>(
    turn_timer_subscriber: &mut U,
    command_dispatcher: mpsc::Sender<MoveCommand>,
    mut command_collector: T,
    turn_event_reciever: mpsc::Receiver<TurnEvent>,
) {
    loop {
        let report = run_user_input_step(
            turn_timer_subscriber,
            &command_dispatcher,
            &mut command_collector,
            &turn_event_reciever,
        );
        if !report.keep_polling() {
            return;
        }
    }
}

#[test]
fn test_loop_does_exit_on_invalid_input() {
    let mut test_turn_timer = TestTurnTimerSubscriber {
        outputs: vec![
            TimerStatus::TimerNotComplete,
            TimerStatus::TimerNotComplete,
            TimerStatus::TimerNotComplete,
        ],
    };
    let (command_dispatcher, _command_reciever) = mpsc::channel();
    let (_turn_event_sender, turn_event_reciever) = mpsc::channel::<TurnEvent>();
    let mut command_collector = TestCommandCollector::new();
    command_collector.outputs.push(Ok(Some(MoveCommand::Down)));
    command_collector
        .outputs
        .push(Err(std::io::Error::new(std::io::ErrorKind::NotFound, "")));

    run_user_input_loop::<TestCommandCollector, TestTurnTimerSubscriber>(
        &mut test_turn_timer,
        command_dispatcher,
        command_collector,
        turn_event_reciever,
    );
    assert_eq!(
        test_turn_timer.get_timer_status(),
        TimerStatus::TimerNotComplete
    );
}

#[test]
fn test_loop_exits_on_end_turn_event() {
    let mut test_turn_timer = TestTurnTimerSubscriber {
        outputs: vec![
            TimerStatus::TimerComplete,
            TimerStatus::TimerComplete,
            TimerStatus::TimerNotComplete,
            TimerStatus::TimerNotComplete,
            TimerStatus::TimerNotComplete,
        ],
    };
    let (command_dispatcher, _command_reciever) = mpsc::channel();
    let (turn_event_sender, turn_event_reciever) = mpsc::channel::<TurnEvent>();
    let mut command_collector = TestCommandCollector::new();
    command_collector.outputs.push(Ok(Some(MoveCommand::Down)));
    turn_event_sender
        .send(TurnEvent::EndTurn)
        .expect("Sent end turn event to closed channel.");
    run_user_input_loop::<TestCommandCollector, TestTurnTimerSubscriber>(
        &mut test_turn_timer,
        command_dispatcher,
        command_collector,
        turn_event_reciever,
    );
    assert_eq!(test_turn_timer.outputs.len(), 5);
}

#[test]
fn test_loop_does_not_exit_on_valid_input() {
    let mut test_turn_timer = TestTurnTimerSubscriber {
        outputs: vec![
            TimerStatus::TimerComplete,
            TimerStatus::TimerComplete,
            TimerStatus::TimerNotComplete,
            TimerStatus::TimerNotComplete,
            TimerStatus::TimerNotComplete,
        ],
    };
    let (command_dispatcher, _command_reciever) = mpsc::channel();
    let (_turn_event_sender, turn_event_reciever) = mpsc::channel::<TurnEvent>();
    let mut command_collector = TestCommandCollector::new();
    command_collector.outputs.push(Ok(Some(MoveCommand::Down)));

    run_user_input_loop::<TestCommandCollector, TestTurnTimerSubscriber>(
        &mut test_turn_timer,
        command_dispatcher,
        command_collector,
        turn_event_reciever,
    );
    assert_eq!(test_turn_timer.outputs.len(), 1);
}

#[test]
fn keys_map_to_commands() {
    let key = |k| map_event(InputEvent::Key(k));
    assert_eq!(key(Key::Down), KeyAction::Forward(MoveCommand::Down));
    assert_eq!(key(Key::Left), KeyAction::Forward(MoveCommand::Left));
    assert_eq!(key(Key::Right), KeyAction::Forward(MoveCommand::Right));
    assert_eq!(key(Key::Char('x')), KeyAction::Forward(MoveCommand::Clockwise));
    assert_eq!(key(Key::Char('z')), KeyAction::Forward(MoveCommand::Anticlockwise));
    assert_eq!(key(Key::Char('X')), KeyAction::Ignore);
    assert_eq!(key(Key::Char('a')), KeyAction::Ignore);
    assert_eq!(key(Key::Other), KeyAction::Ignore);
    assert_eq!(key(Key::Esc), KeyAction::Terminate);
    assert_eq!(map_event(InputEvent::Other), KeyAction::Terminate);
}

#[test]
fn reads_are_classified() {
    for ended in [false, true] {
        assert_eq!(
            read_outcome(Ok(Some(MoveCommand::Left)), ended),
            CommandRead::Command(MoveCommand::Left)
        );
        assert_eq!(
            read_outcome(Err(std::io::Error::new(std::io::ErrorKind::NotFound, "")), ended),
            CommandRead::Failed
        );
    }
    assert_eq!(read_outcome(Ok(None), false), CommandRead::Nothing);
    assert_eq!(read_outcome(Ok(None), true), CommandRead::Ended);
}

struct EndingCollector {
    reads_left: usize,
}

impl CommandCollector for EndingCollector {
    fn new() -> Self {
        Self { reads_left: 2 }
    }
    fn get_command(&mut self) -> std::io::Result<Option<MoveCommand>> {
        if self.reads_left > 0 {
            self.reads_left -= 1;
        }
        Ok(None)
    }
    fn has_ended(&self) -> bool {
        self.reads_left == 0
    }
}

#[test]
fn collector_stops_at_the_end_of_its_source() {
    let mut test_turn_timer = TestTurnTimerSubscriber {
        outputs: vec![TimerStatus::TimerNotComplete; 5],
    };
    let mut command_collector = EndingCollector::new();
    let (command_dispatcher, command_reciever) = mpsc::channel();
    let (_turn_event_sender, turn_event_reciever) = mpsc::channel::<TurnEvent>();
    let first = run_user_input_step(
        &mut test_turn_timer,
        &command_dispatcher,
        &mut command_collector,
        &turn_event_reciever,
    );
    assert_eq!(first.command, Some(CommandRead::Nothing));
    assert!(first.keep_polling());
    let second = run_user_input_step(
        &mut test_turn_timer,
        &command_dispatcher,
        &mut command_collector,
        &turn_event_reciever,
    );
    assert_eq!(
        second,
        PollReport {
            end_turn_seen: false,
            timer_status: Some(TimerStatus::TimerNotComplete),
            command: Some(CommandRead::Ended),
            delivered: None,
        }
    );
    assert!(!second.keep_polling());
    assert_eq!(test_turn_timer.outputs.len(), 3);
    assert!(command_reciever.try_recv().is_err());
}

#[test]
fn source_that_says_nothing_never_ends() {
    let command_collector = TestCommandCollector::new();
    assert!(!command_collector.has_ended());
}

fn poll(
    timer: Vec<TimerStatus>,
    commands: Vec<std::io::Result<Option<MoveCommand>>>,
    end_turn: bool,
    receiver_alive: bool,
) -> (PollReport, usize, usize, Vec<MoveCommand>) {
    let mut test_turn_timer = TestTurnTimerSubscriber { outputs: timer };
    let mut command_collector = TestCommandCollector { outputs: commands };
    let (command_dispatcher, command_reciever) = mpsc::channel();
    let (turn_event_sender, turn_event_reciever) = mpsc::channel::<TurnEvent>();
    if end_turn {
        turn_event_sender.send(TurnEvent::EndTurn).unwrap();
    }
    let command_reciever = if receiver_alive {
        Some(command_reciever)
    } else {
        drop(command_reciever);
        None
    };
    let report = run_user_input_step(
        &mut test_turn_timer,
        &command_dispatcher,
        &mut command_collector,
        &turn_event_reciever,
    );
    let sent = match &command_reciever {
        Some(receiver) => receiver.try_iter().collect(),
        None => vec![],
    };
    (report, test_turn_timer.outputs.len(), command_collector.outputs.len(), sent)
}

#[test]
fn poll_ends_on_an_end_of_turn_event_before_any_other_look() {
    let (report, timer_left, commands_left, sent) = poll(
        vec![TimerStatus::TimerNotComplete],
        vec![Ok(Some(MoveCommand::Left))],
        true,
        true,
    );
    assert_eq!(
        report,
        PollReport { end_turn_seen: true, timer_status: None, command: None, delivered: None }
    );
    assert!(!report.keep_polling());
    assert_eq!((timer_left, commands_left), (1, 1));
    assert!(sent.is_empty());
}

#[test]
fn poll_ends_on_a_complete_timer_without_reading() {
    let (report, timer_left, commands_left, sent) = poll(
        vec![TimerStatus::TimerComplete],
        vec![Ok(Some(MoveCommand::Left))],
        false,
        true,
    );
    assert_eq!(
        report,
        PollReport {
            end_turn_seen: false,
            timer_status: Some(TimerStatus::TimerComplete),
            command: None,
            delivered: None,
        }
    );
    assert!(!report.keep_polling());
    assert_eq!((timer_left, commands_left), (0, 1));
    assert!(sent.is_empty());
}

#[test]
fn poll_forwards_a_command_and_goes_on() {
    let (report, _, commands_left, sent) = poll(
        vec![TimerStatus::TimerNotComplete],
        vec![Ok(Some(MoveCommand::Clockwise))],
        false,
        true,
    );
    assert_eq!(
        report,
        PollReport {
            end_turn_seen: false,
            timer_status: Some(TimerStatus::TimerNotComplete),
            command: Some(CommandRead::Command(MoveCommand::Clockwise)),
            delivered: Some(true),
        }
    );
    assert!(report.keep_polling());
    assert_eq!(commands_left, 0);
    assert_eq!(sent, vec![MoveCommand::Clockwise]);
}

#[test]
fn poll_goes_on_when_nothing_is_ready() {
    let (report, _, _, sent) =
        poll(vec![TimerStatus::TimerNotComplete], vec![Ok(None)], false, true);
    assert_eq!(
        report,
        PollReport {
            end_turn_seen: false,
            timer_status: Some(TimerStatus::TimerNotComplete),
            command: Some(CommandRead::Nothing),
            delivered: None,
        }
    );
    assert!(report.keep_polling());
    assert!(sent.is_empty());
}

#[test]
fn poll_ends_when_nobody_receives() {
    let (report, _, _, _) = poll(
        vec![TimerStatus::TimerNotComplete],
        vec![Ok(Some(MoveCommand::Right))],
        false,
        false,
    );
    assert_eq!(
        report,
        PollReport {
            end_turn_seen: false,
            timer_status: Some(TimerStatus::TimerNotComplete),
            command: Some(CommandRead::Command(MoveCommand::Right)),
            delivered: Some(false),
        }
    );
    assert!(!report.keep_polling());
}

#[test]
fn poll_ends_on_a_failed_read() {
    let (report, _, _, sent) = poll(
        vec![TimerStatus::TimerNotComplete],
        vec![Err(std::io::Error::new(std::io::ErrorKind::Other, "lost"))],
        false,
        true,
    );
    assert_eq!(
        report,
        PollReport {
            end_turn_seen: false,
            timer_status: Some(TimerStatus::TimerNotComplete),
            command: Some(CommandRead::Failed),
            delivered: None,
        }
    );
    assert!(!report.keep_polling());
    assert!(sent.is_empty());
}

#[test]
fn commands_arrive_in_the_order_they_were_read() {
    let mut test_turn_timer = TestTurnTimerSubscriber {
        outputs: vec![TimerStatus::TimerNotComplete; 3],
    };
    let (command_dispatcher, command_reciever) = mpsc::channel();
    let (_turn_event_sender, turn_event_reciever) = mpsc::channel::<TurnEvent>();
    let mut command_collector = TestCommandCollector::new();
    command_collector.outputs.push(Ok(Some(MoveCommand::Clockwise)));
    command_collector.outputs.push(Ok(Some(MoveCommand::Right)));
    command_collector.outputs.push(Ok(Some(MoveCommand::Left)));
    run_user_input_loop::<TestCommandCollector, TestTurnTimerSubscriber>(
        &mut test_turn_timer,
        command_dispatcher,
        command_collector,
        turn_event_reciever,
    );
    let sent: Vec<MoveCommand> = command_reciever.try_iter().collect();
    assert_eq!(sent, vec![MoveCommand::Left, MoveCommand::Right, MoveCommand::Clockwise]);
}
