use vstd::prelude::*;

use crate::abilities::{bits_at_least_zero, FlySpeed};

verus! {

/// The arguments that the command reads by name.
#[derive(Clone, Copy, Debug, PartialEq, Eq, Structural)]
pub enum ArgName {
    Players,
    Speed,
}

impl ArgName {
    pub fn as_str(&self) -> (r: &'static str)
        ensures
            *self == ArgName::Players ==> r@ == "players"@,
            *self == ArgName::Speed ==> r@ == "speed"@,
    {
        match self {
            ArgName::Players => "players",
            ArgName::Speed => "speed",
        }
    }
}

/// A semantic precondition of the command that did not hold.
#[derive(Clone, Copy, Debug, PartialEq, Eq, Structural)]
pub enum Failure {
    SenderNotPlayer,
}

impl Failure {
    /// The text shown to the sender.
    pub fn message(&self) -> (r: &'static str)
        ensures
            r@ == "Failed to get sender as player."@,
    {
        match self {
            Failure::SenderNotPlayer => "Failed to get sender as player.",
        }
    }
}

/// Why an invocation of the command was refused.
#[derive(Clone, Copy, Debug, PartialEq, Eq, Structural)]
pub enum CommandError {
    /// A required argument was missing or had the wrong shape.
    InvalidArgument(ArgName),
    /// A semantic precondition failed.
    CommandFailed(Failure),
}

/// A parsed argument value, as the host's parser hands it over.
#[derive(Debug)]
pub enum Arg {
    /// The players that a selector matched, by id.
    Players(Vec<u64>),
    /// A number that has passed the host's parser.
    Number(FlySpeed),
}

/// The argument bag of one invocation: each named argument is present or absent.
#[derive(Debug)]
pub struct ConsumedArgs {
    pub players: Option<Arg>,
    pub speed: Option<Arg>,
}

/// Who sent the command.
#[derive(Clone, Copy, Debug, PartialEq, Eq, Structural)]
pub enum Sender {
    Player(u64),
    Console,
}

impl Sender {
    pub fn as_player(&self) -> (r: Option<u64>)
        ensures
            r == sender_player(*self),
    {
        match self {
            Sender::Player(id) => Some(*id),
            Sender::Console => None,
        }
    }
}

pub open spec fn sender_player(s: Sender) -> Option<u64> {
    match s {
        Sender::Player(id) => Some(id),
        Sender::Console => None,
    }
}

/// The target ids in the bag, or `InvalidArgument(Players)`.
pub open spec fn targets_of(args: ConsumedArgs) -> Result<Seq<u64>, CommandError> {
    match args.players {
        Some(Arg::Players(ids)) => Ok(ids@),
        _ => Err(CommandError::InvalidArgument(ArgName::Players)),
    }
}

/// The speed in the bag when it is a number of at least zero, or
/// `InvalidArgument(Speed)`.
pub open spec fn speed_of(args: ConsumedArgs) -> Result<FlySpeed, CommandError> {
    match args.speed {
        Some(Arg::Number(s)) => if bits_at_least_zero(s.bits) {
            Ok(s)
        } else {
            Err(CommandError::InvalidArgument(ArgName::Speed))
        },
        _ => Err(CommandError::InvalidArgument(ArgName::Speed)),
    }
}

/// The sender as the only target, when the sender is a player.
pub open spec fn self_target_of(sender: Sender) -> Result<u64, CommandError> {
    match sender {
        Sender::Player(id) => Ok(id),
        Sender::Console => Err(CommandError::CommandFailed(Failure::SenderNotPlayer)),
    }
}

/// Copies the target ids out of the bag.
pub fn resolve_targets(args: &ConsumedArgs) -> (r: Result<Vec<u64>, CommandError>)
    ensures
        match (r, targets_of(*args)) {
            (Ok(v), Ok(s)) => v@ == s,
            (Err(e), Err(f)) => e == f,
            _ => false,
        },
{
    match &args.players {
        Some(Arg::Players(ids)) => {
            let mut out: Vec<u64> = Vec::new();
            let mut i: usize = 0;
            while i < ids.len()
                invariant
                    i <= ids@.len(),
                    out@ == ids@.subrange(0, i as int),
                decreases ids@.len() - i,
            {
                out.push(ids[i]);
                i = i + 1;
            }
            assert(out@ =~= ids@);
            Ok(out)
        },
        _ => Err(CommandError::InvalidArgument(ArgName::Players)),
    }
}

/// Reads the speed and holds it to the lower bound of zero.
pub fn resolve_speed(args: &ConsumedArgs) -> (r: Result<FlySpeed, CommandError>)
    ensures
        r == speed_of(*args),
{
    match &args.speed {
        Some(Arg::Number(s)) => if s.is_at_least_zero() {
            Ok(*s)
        } else {
            Err(CommandError::InvalidArgument(ArgName::Speed))
        },
        _ => Err(CommandError::InvalidArgument(ArgName::Speed)),
    }
}

/// The sender as target of the form without arguments.
pub fn resolve_self_target(sender: &Sender) -> (r: Result<u64, CommandError>)
    ensures
        r == self_target_of(*sender),
{
    match sender.as_player() {
        Some(id) => Ok(id),
        None => Err(CommandError::CommandFailed(Failure::SenderNotPlayer)),
    }
}

} // verus!
