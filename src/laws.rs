use vstd::prelude::*;

use crate::abilities::{bits_at_least_zero, grounded_unless_allowed, FlySpeed};
use crate::args::{targets_of, Arg, ArgName, CommandError, ConsumedArgs, Failure, Sender};
use crate::command::{after_policy, resolved, targeted_slots, Player, Policy, Shape};

verus! {

/// The positions to notify are in the roster, strictly increasing (so no
/// player is notified twice), and are exactly those of the targeted players.
pub proof fn lemma_targeted_slots(roster: Seq<Player>, targets: Seq<u64>)
    requires
        roster.len() <= usize::MAX,
    ensures
        forall|k: int|
            0 <= k < targeted_slots(roster, targets).len() ==> {
                let s = #[trigger] targeted_slots(roster, targets)[k];
                &&& s < roster.len()
                &&& targets.contains(roster[s as int].id)
            },
        forall|k1: int, k2: int|
            0 <= k1 < k2 < targeted_slots(roster, targets).len() ==> targeted_slots(roster, targets)[k1]
                < targeted_slots(roster, targets)[k2],
        forall|i: int|
            0 <= i < roster.len() ==> (#[trigger] targets.contains(roster[i].id)
                <==> targeted_slots(roster, targets).contains(i as usize)),
    decreases roster.len(),
{
    if roster.len() > 0 {
        let prefix = roster.drop_last();
        lemma_targeted_slots(prefix, targets);
        let rest = targeted_slots(prefix, targets);
        let last = (roster.len() - 1) as usize;
        assert forall|i: int| 0 <= i < roster.len() implies (#[trigger] targets.contains(roster[i].id)
            <==> targeted_slots(roster, targets).contains(i as usize)) by {
            if i < roster.len() - 1 {
                assert(prefix[i] == roster[i]);
                if targets.contains(roster[i].id) {
                    let k = choose|k: int| 0 <= k < rest.len() && rest[k] == i as usize;
                    assert(targeted_slots(roster, targets)[k] == i as usize);
                }
                if targeted_slots(roster, targets).contains(i as usize) {
                    let k = choose|k: int|
                        0 <= k < targeted_slots(roster, targets).len() && targeted_slots(roster, targets)[k]
                            == i as usize;
                    if k < rest.len() {
                        assert(rest[k] == i as usize);
                    }
                }
            } else {
                if targets.contains(roster[i].id) {
                    assert(targeted_slots(roster, targets)[rest.len() as int] == last);
                } else {
                    if rest.contains(i as usize) {
                        let k = choose|k: int| 0 <= k < rest.len() && rest[k] == i as usize;
                        assert(rest[k] < prefix.len());
                    }
                }
            }
        }
        assert forall|k: int| 0 <= k < targeted_slots(roster, targets).len() implies {
            let s = #[trigger] targeted_slots(roster, targets)[k];
            &&& s < roster.len()
            &&& targets.contains(roster[s as int].id)
        } by {
            if k < rest.len() {
                assert(rest[k] < prefix.len());
                assert(prefix[rest[k] as int] == roster[rest[k] as int]);
            }
        }
    }
}

/// The toggle reaches exactly the targeted players: each of them has the
/// allowance flipped, every other player is left as it was, and the roster
/// keeps its players in their places.
pub proof fn lemma_toggle_flips_exactly_targets(roster: Seq<Player>, targets: Seq<u64>)
    ensures
        after_policy(roster, targets, Policy::Toggle).len() == roster.len(),
        forall|i: int|
            0 <= i < roster.len() ==> #[trigger] after_policy(roster, targets, Policy::Toggle)[i].id == roster[i].id,
        forall|i: int|
            0 <= i < roster.len() && targets.contains(roster[i].id) ==> #[trigger] after_policy(
                roster,
                targets,
                Policy::Toggle,
            )[i].abilities.allow_flying == !roster[i].abilities.allow_flying,
        forall|i: int|
            0 <= i < roster.len() && !targets.contains(roster[i].id) ==> #[trigger] after_policy(
                roster,
                targets,
                Policy::Toggle,
            )[i] == roster[i],
{
}

/// After a toggle no targeted player flies without the allowance.
pub proof fn lemma_toggle_grounds_unallowed(roster: Seq<Player>, targets: Seq<u64>)
    ensures
        forall|i: int|
            0 <= i < roster.len() && targets.contains(roster[i].id) ==> grounded_unless_allowed(
                #[trigger] after_policy(roster, targets, Policy::Toggle)[i].abilities,
            ),
{
}

/// Enabling with a speed never takes the allowance away: each targeted player
/// may fly afterwards, and no player who could fly before has lost it.
pub proof fn lemma_enable_never_disallows(roster: Seq<Player>, targets: Seq<u64>, speed: FlySpeed)
    ensures
        forall|i: int|
            0 <= i < roster.len() && targets.contains(roster[i].id) ==> (#[trigger] after_policy(
                roster,
                targets,
                Policy::EnableWithSpeed(speed),
            )[i]).abilities.allow_flying,
        forall|i: int|
            0 <= i < roster.len() && roster[i].abilities.allow_flying ==> (#[trigger] after_policy(
                roster,
                targets,
                Policy::EnableWithSpeed(speed),
            )[i]).abilities.allow_flying,
{
}

/// A speed below zero (or not a number) is refused while the arguments are
/// resolved, so no policy is ever applied with it; with valid targets the
/// error names the speed.
pub proof fn lemma_negative_speed_refused(sender: Sender, args: ConsumedArgs, bits: u32)
    requires
        args.speed == Some(Arg::Number(FlySpeed { bits })),
        !bits_at_least_zero(bits),
    ensures
        resolved(Shape::TargetAndSpeed, sender, args) is Err,
        targets_of(args) is Ok ==> resolved(Shape::TargetAndSpeed, sender, args) == Err::<(Seq<u64>, Policy), CommandError>(
            CommandError::InvalidArgument(ArgName::Speed),
        ),
{
}

/// The form without arguments, sent by a non-player, fails as a command and
/// resolves to nothing that could be applied.
pub proof fn lemma_console_self_target_fails(args: ConsumedArgs)
    ensures
        resolved(Shape::NoArguments, Sender::Console, args) == Err::<(Seq<u64>, Policy), CommandError>(
            CommandError::CommandFailed(Failure::SenderNotPlayer),
        ),
{
}

} // verus!
