//! Input collection: from keys to commands, and one poll of the collector.

use std::sync::mpsc::{Receiver, Sender};
use vstd::prelude::*;

use crate::models::{MoveCommand, TurnEvent};
use crate::turn_timer::turn_timer::{TimerStatus, TurnTimerSubscriberTrait};

verus! {

/// A key as the collector tells them apart.
#[derive(Debug, PartialEq, Eq, Structural, Clone, Copy)]
pub enum Key {
    Down,
    Left,
    Right,
    Char(char),
    Esc,
    Other,
}

/// What the terminal reported: a key, or anything else.
#[derive(Debug, PartialEq, Eq, Structural, Clone, Copy)]
pub enum InputEvent {
    Key(Key),
    Other,
}

/// What the collector does with an input event.
#[derive(Debug, PartialEq, Eq, Structural, Clone, Copy)]
pub enum KeyAction {
    /// Send the command on to the coordinator.
    Forward(MoveCommand),
    /// Do nothing and go on.
    Ignore,
    /// Stop collecting.
    Terminate,
}

/// The arrows move, `x` turns clockwise and `z` anticlockwise. Escape, and
/// anything that is not a key, stops the collector. Every other key is
/// ignored.
pub open spec fn mapped(event: InputEvent) -> KeyAction {
    match event {
        InputEvent::Key(Key::Down) => KeyAction::Forward(MoveCommand::Down),
        InputEvent::Key(Key::Left) => KeyAction::Forward(MoveCommand::Left),
        InputEvent::Key(Key::Right) => KeyAction::Forward(MoveCommand::Right),
        InputEvent::Key(Key::Char(c)) => if c == 'x' {
            KeyAction::Forward(MoveCommand::Clockwise)
        } else if c == 'z' {
            KeyAction::Forward(MoveCommand::Anticlockwise)
        } else {
            KeyAction::Ignore
        },
        InputEvent::Key(Key::Esc) => KeyAction::Terminate,
        InputEvent::Key(Key::Other) => KeyAction::Ignore,
        InputEvent::Other => KeyAction::Terminate,
    }
}

/// Maps an input event to what the collector does with it.
pub fn map_event(event: InputEvent) -> (action: KeyAction)
    ensures
        action == mapped(event),
{
    match event {
        InputEvent::Key(key) => match key {
            Key::Down => KeyAction::Forward(MoveCommand::Down),
            Key::Left => KeyAction::Forward(MoveCommand::Left),
            Key::Right => KeyAction::Forward(MoveCommand::Right),
            Key::Char(c) => {
                if c == 'x' {
                    KeyAction::Forward(MoveCommand::Clockwise)
                } else if c == 'z' {
                    KeyAction::Forward(MoveCommand::Anticlockwise)
                } else {
                    KeyAction::Ignore
                }
            },
            Key::Esc => KeyAction::Terminate,
            Key::Other => KeyAction::Ignore,
        },
        InputEvent::Other => KeyAction::Terminate,
    }
}

/// A source of commands: the terminal, or a script.
pub trait CommandCollector: Sized {
    fn new() -> Self;

    /// The next command, if one is ready; `None` if none is; an error if
    /// reading failed.
    fn get_command(&mut self) -> std::io::Result<Option<MoveCommand>>;

    /// Whether the source has come to its end, as the terminal does with
    /// Escape and with anything that is not a key. A source that says
    /// nothing never ends.
    fn has_ended(&self) -> bool {
        false
    }
}

/// What a read of the command source gave.
#[derive(Debug, PartialEq, Eq, Structural, Clone, Copy)]
pub enum CommandRead {
    /// A command to send on.
    Command(MoveCommand),
    /// Nothing was ready, or a key without a meaning was pressed.
    Nothing,
    /// The source has come to its end.
    Ended,
    /// Reading failed.
    Failed,
}

/// What a read gave, from its result and from whether the source has ended
/// since: a failed read has failed and a command is a command, whatever the
/// source says; a read of nothing is the end where the source has ended.
pub open spec fn classified(read: std::io::Result<Option<MoveCommand>>, ended: bool) -> CommandRead {
    match read {
        Ok(Some(command)) => CommandRead::Command(command),
        Ok(None) => if ended {
            CommandRead::Ended
        } else {
            CommandRead::Nothing
        },
        Err(_) => CommandRead::Failed,
    }
}

/// Classifies the result of a read.
pub fn read_outcome(read: std::io::Result<Option<MoveCommand>>, ended: bool) -> (outcome:
    CommandRead)
    ensures
        outcome == classified(read, ended),
{
    match read {
        Ok(Some(command)) => CommandRead::Command(command),
        Ok(None) => {
            if ended {
                CommandRead::Ended
            } else {
                CommandRead::Nothing
            }
        },
        Err(_) => CommandRead::Failed,
    }
}

/// What one poll of the collector looked at, and what it found. A field is
/// `None` where the poll ended before that look was taken.
#[derive(Debug, PartialEq, Eq, Structural, Clone, Copy)]
pub struct PollReport {
    /// An end-of-turn event was waiting.
    pub end_turn_seen: bool,
    /// What the timer's subscriber said.
    pub timer_status: Option<TimerStatus>,
    /// What the read of the command source gave.
    pub command: Option<CommandRead>,
    /// Whether the command could be sent on.
    pub delivered: Option<bool>,
}

impl PollReport {
    /// The looks were taken in order, each only where the one before did not
    /// end the poll: the timer is asked unless the turn was ended; a command
    /// is read only while the timer is not complete; and exactly a command
    /// that was read is sent on.
    pub open spec fn in_order(self) -> bool {
        &&& self.timer_status is Some <==> !self.end_turn_seen
        &&& self.command is Some <==> self.timer_status == Some(TimerStatus::TimerNotComplete)
        &&& self.delivered is Some <==> (self.command matches Some(CommandRead::Command(_)))
    }

    /// The collector goes on after this poll: nothing was ready, or a
    /// command was read and delivered. It stops on an end-of-turn event, on a
    /// complete timer, at the end of the source, on a failed read and on a
    /// command nobody receives.
    pub open spec fn continues(self) -> bool {
        self.command == Some(CommandRead::Nothing) || self.delivered == Some(true)
    }

    /// Whether the collector goes on after this poll.
    pub fn keep_polling(&self) -> (go_on: bool)
        ensures
            go_on == self.continues(),
    {
        match self.command {
            Some(CommandRead::Nothing) => true,
            _ => match self.delivered {
                Some(true) => true,
                _ => false,
            },
        }
    }
}

/// One poll of the collector. It looks for an end-of-turn event, then asks
/// the timer's subscriber, then reads a command, asks the source whether it
/// has ended, and sends the command on; it ends at the first look that stops
/// the collector. The report says what was seen.
pub fn run_user_input_step<T: CommandCollector, U: TurnTimerSubscriberTrait>(
    turn_timer_subscriber: &mut U,
    command_dispatcher: &Sender<MoveCommand>,
    command_collector: &mut T,
    turn_event_reciever: &Receiver<TurnEvent>,
) -> (report: PollReport)
    ensures
        report.in_order(),
{
    if let Ok(TurnEvent::EndTurn) = turn_event_reciever.try_recv() {
        return PollReport { end_turn_seen: true, timer_status: None, command: None, delivered: None };
    }
    let status = turn_timer_subscriber.get_timer_status();
    match status {
        TimerStatus::TimerComplete => PollReport {
            end_turn_seen: false,
            timer_status: Some(status),
            command: None,
            delivered: None,
        },
        TimerStatus::TimerNotComplete => {
            let result = command_collector.get_command();
            let ended = command_collector.has_ended();
            let read = read_outcome(result, ended);
            let delivered = match read {
                CommandRead::Command(command) => Some(command_dispatcher.send(command).is_ok()),
                _ => None,
            };
            PollReport {
                end_turn_seen: false,
                timer_status: Some(status),
                command: Some(read),
                delivered,
            }
        },
    }
}

} // verus!
