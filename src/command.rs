use vstd::prelude::*;

use crate::abilities::{enabled_at, toggled, Abilities, FlySpeed};
use crate::args::{
    resolve_self_target, resolve_speed, resolve_targets, self_target_of, speed_of, targets_of,
    CommandError, ConsumedArgs, Sender,
};

verus! {

/// A player as the command sees it: an id and the flight abilities.
#[derive(Clone, Copy, Debug, PartialEq, Eq, Structural)]
pub struct Player {
    pub id: u64,
    pub abilities: Abilities,
}

/// The argument shape that the host's dispatcher matched.
#[derive(Clone, Copy, Debug, PartialEq, Eq, Structural)]
pub enum Shape {
    /// `fly`: the sender toggles its own allowance.
    NoArguments,
    /// `fly <target>`: the targets' allowance is toggled.
    Target,
    /// `fly <target> <speed>`: the targets may fly, at that speed.
    TargetAndSpeed,
}

/// What is done to each target.
#[derive(Clone, Copy, Debug, PartialEq, Eq, Structural)]
pub enum Policy {
    Toggle,
    EnableWithSpeed(FlySpeed),
}

/// A resolved invocation: whom to change, and how.
#[derive(Debug)]
pub struct Invocation {
    pub targets: Vec<u64>,
    pub policy: Policy,
}

pub open spec fn policy_applied(a: Abilities, policy: Policy) -> Abilities {
    match policy {
        Policy::Toggle => toggled(a),
        Policy::EnableWithSpeed(speed) => enabled_at(a, speed),
    }
}

/// The roster after the policy reached every player whose id is a target.
pub open spec fn after_policy(roster: Seq<Player>, targets: Seq<u64>, policy: Policy) -> Seq<Player> {
    Seq::new(
        roster.len(),
        |i: int|
            if targets.contains(roster[i].id) {
                Player { id: roster[i].id, abilities: policy_applied(roster[i].abilities, policy) }
            } else {
                roster[i]
            },
    )
}

/// The positions in the roster of the targeted players, in roster order: one
/// update notification goes to each.
pub open spec fn targeted_slots(roster: Seq<Player>, targets: Seq<u64>) -> Seq<usize>
    decreases roster.len(),
{
    if roster.len() == 0 {
        seq![]
    } else {
        let rest = targeted_slots(roster.drop_last(), targets);
        if targets.contains(roster.last().id) {
            rest.push((roster.len() - 1) as usize)
        } else {
            rest
        }
    }
}

/// The invocation that a matched shape resolves to, or the error that stops it.
/// The targets are resolved before the speed.
pub open spec fn resolved(shape: Shape, sender: Sender, args: ConsumedArgs) -> Result<(Seq<u64>, Policy), CommandError> {
    match shape {
        Shape::NoArguments => match self_target_of(sender) {
            Ok(id) => Ok((seq![id], Policy::Toggle)),
            Err(e) => Err(e),
        },
        Shape::Target => match targets_of(args) {
            Ok(ids) => Ok((ids, Policy::Toggle)),
            Err(e) => Err(e),
        },
        Shape::TargetAndSpeed => match targets_of(args) {
            Ok(ids) => match speed_of(args) {
                Ok(speed) => Ok((ids, Policy::EnableWithSpeed(speed))),
                Err(e) => Err(e),
            },
            Err(e) => Err(e),
        },
    }
}

/// Whether `id` is among the targets.
pub fn is_target(targets: &Vec<u64>, id: u64) -> (r: bool)
    ensures
        r == targets@.contains(id),
{
    let mut i: usize = 0;
    while i < targets.len()
        invariant
            i <= targets@.len(),
            forall|j: int| 0 <= j < i ==> targets@[j] != id,
        decreases targets@.len() - i,
    {
        if targets[i] == id {
            return true;
        }
        i = i + 1;
    }
    false
}

/// Applies the policy to one player's abilities.
pub fn apply_to(abilities: &mut Abilities, policy: Policy)
    ensures
        *final(abilities) == policy_applied(*old(abilities), policy),
{
    match policy {
        Policy::Toggle => abilities.toggle(),
        Policy::EnableWithSpeed(speed) => abilities.enable_with_speed(speed),
    }
}

/// Applies the policy to every targeted player of the roster and to no other,
/// and returns the positions of the players to notify.
pub fn apply_policy(roster: &mut Vec<Player>, targets: &Vec<u64>, policy: Policy) -> (notified: Vec<usize>)
    ensures
        final(roster)@ == after_policy(old(roster)@, targets@, policy),
        notified@ == targeted_slots(old(roster)@, targets@),
{
    let ghost start = roster@;
    let mut notified: Vec<usize> = Vec::new();
    let mut i: usize = 0;
    while i < roster.len()
        invariant
            roster@.len() == start.len(),
            i <= start.len(),
            forall|j: int| 0 <= j < i ==> roster@[j] == after_policy(start, targets@, policy)[j],
            forall|j: int| i <= j < start.len() ==> roster@[j] == start[j],
            notified@ == targeted_slots(start.subrange(0, i as int), targets@),
        decreases start.len() - i,
    {
        let mut player = roster[i];
        assert(start.subrange(0, i + 1).drop_last() =~= start.subrange(0, i as int));
        if is_target(targets, player.id) {
            apply_to(&mut player.abilities, policy);
            roster.set(i, player);
            notified.push(i);
        }
        i = i + 1;
    }
    assert(start.subrange(0, start.len() as int) =~= start);
    assert(roster@ =~= after_policy(start, targets@, policy));
    notified
}

/// Resolves the arguments of a matched shape into targets and a policy.
pub fn resolve(shape: Shape, sender: &Sender, args: &ConsumedArgs) -> (r: Result<Invocation, CommandError>)
    ensures
        match (r, resolved(shape, *sender, *args)) {
            (Ok(inv), Ok((ids, policy))) => inv.targets@ == ids && inv.policy == policy,
            (Err(e), Err(f)) => e == f,
            _ => false,
        },
{
    match shape {
        Shape::NoArguments => match resolve_self_target(sender) {
            Ok(id) => {
                let targets = vec![id];
                assert(targets@ =~= seq![id]);
                Ok(Invocation { targets, policy: Policy::Toggle })
            },
            Err(e) => Err(e),
        },
        Shape::Target => match resolve_targets(args) {
            Ok(targets) => Ok(Invocation { targets, policy: Policy::Toggle }),
            Err(e) => Err(e),
        },
        Shape::TargetAndSpeed => match resolve_targets(args) {
            Ok(targets) => match resolve_speed(args) {
                Ok(speed) => Ok(Invocation { targets, policy: Policy::EnableWithSpeed(speed) }),
                Err(e) => Err(e),
            },
            Err(e) => Err(e),
        },
    }
}

/// Runs one invocation of the command against the roster. Nothing changes
/// unless every argument resolves; then each target is changed and listed
/// once for an update notification.
pub fn execute(shape: Shape, sender: &Sender, args: &ConsumedArgs, roster: &mut Vec<Player>) -> (r: Result<Vec<usize>, CommandError>)
    ensures
        match (r, resolved(shape, *sender, *args)) {
            (Ok(notified), Ok((ids, policy))) => {
                &&& final(roster)@ == after_policy(old(roster)@, ids, policy)
                &&& notified@ == targeted_slots(old(roster)@, ids)
            },
            (Err(e), Err(f)) => e == f && final(roster)@ == old(roster)@,
            _ => false,
        },
{
    match resolve(shape, sender, args) {
        Ok(inv) => Ok(apply_policy(roster, &inv.targets, inv.policy)),
        Err(e) => Err(e),
    }
}

} // verus!
