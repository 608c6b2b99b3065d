use fly_command::abilities::{Abilities, FlySpeed};
use fly_command::args::{
    resolve_self_target, resolve_speed, resolve_targets, Arg, ArgName, CommandError,
    ConsumedArgs, Failure, Sender,
};
use fly_command::command::{apply_policy, execute, is_target, resolve, Player, Policy, Shape};
use fly_command::plugin::{FlyCommand, PermissionDefault, COMMAND_NAME, PERMISSION_NODE};

fn speed(v: f32) -> FlySpeed {
    FlySpeed::from_bits(v.to_bits())
}

fn player(id: u64, allow_flying: bool, flying: bool) -> Player {
    Player { id, abilities: Abilities::new(allow_flying, flying, speed(1.0)) }
}

fn target_args(ids: Vec<u64>) -> ConsumedArgs {
    ConsumedArgs { players: Some(Arg::Players(ids)), speed: None }
}

fn speed_args(ids: Vec<u64>, v: f32) -> ConsumedArgs {
    ConsumedArgs { players: Some(Arg::Players(ids)), speed: Some(Arg::Number(speed(v))) }
}

const ALICE: u64 = 1;
const BOB: u64 = 2;
const CAROL: u64 = 3;
const DAN: u64 = 4;
const EVE: u64 = 5;

#[test]
fn toggle_enables_alice() {
    let mut roster = vec![player(ALICE, false, false)];
    let r = execute(Shape::Target, &Sender::Console, &target_args(vec![ALICE]), &mut roster);
    assert_eq!(r, Ok(vec![0]));
    assert!(roster[0].abilities.allow_flying);
    assert!(!roster[0].abilities.flying);
    assert_eq!(roster[0].abilities.fly_speed, speed(1.0));
}

#[test]
fn toggle_grounds_bob() {
    let mut roster = vec![player(BOB, true, true)];
    let r = execute(Shape::Target, &Sender::Console, &target_args(vec![BOB]), &mut roster);
    assert_eq!(r, Ok(vec![0]));
    assert!(!roster[0].abilities.allow_flying);
    assert!(!roster[0].abilities.flying);
}

#[test]
fn negative_speed_refused_for_carol() {
    let before = vec![player(CAROL, false, false)];
    let mut roster = before.clone();
    let r = execute(Shape::TargetAndSpeed, &Sender::Console, &speed_args(vec![CAROL], -1.0), &mut roster);
    assert_eq!(r, Err(CommandError::InvalidArgument(ArgName::Speed)));
    assert_eq!(ArgName::Speed.as_str(), "speed");
    assert_eq!(roster, before);
}

#[test]
fn enable_with_speed_for_dan_and_eve() {
    let mut roster = vec![player(DAN, false, false), player(EVE, true, true)];
    let r = execute(Shape::TargetAndSpeed, &Sender::Console, &speed_args(vec![DAN, EVE], 5.0), &mut roster);
    assert_eq!(r, Ok(vec![0, 1]));
    assert!(roster[0].abilities.allow_flying);
    assert!(roster[1].abilities.allow_flying);
    assert_eq!(f32::from_bits(roster[0].abilities.fly_speed.bits), 5.0);
    assert_eq!(f32::from_bits(roster[1].abilities.fly_speed.bits), 5.0);
    assert!(!roster[0].abilities.flying);
    assert!(roster[1].abilities.flying);
}

#[test]
fn toggle_reaches_only_targets() {
    let mut roster = vec![player(1, false, false), player(2, true, true), player(3, true, false), player(4, false, false)];
    let before = roster.clone();
    let notified = apply_policy(&mut roster, &vec![2, 4, 99], Policy::Toggle);
    assert_eq!(notified, vec![1, 3]);
    assert_eq!(roster[0], before[0]);
    assert_eq!(roster[2], before[2]);
    assert!(!roster[1].abilities.allow_flying);
    assert!(roster[3].abilities.allow_flying);
}

#[test]
fn toggle_empty_target_set_changes_nothing() {
    let mut roster = vec![player(1, false, false), player(2, true, true)];
    let before = roster.clone();
    let r = execute(Shape::Target, &Sender::Console, &target_args(vec![]), &mut roster);
    assert_eq!(r, Ok(vec![]));
    assert_eq!(roster, before);
}

#[test]
fn toggle_twice_restores_allowance() {
    for (allow, flying) in [(false, false), (true, false), (true, true)] {
        let mut a = Abilities::new(allow, flying, speed(2.5));
        a.toggle();
        a.toggle();
        assert_eq!(a.allow_flying, allow);
        assert_eq!(a.fly_speed, speed(2.5));
    }
}

#[test]
fn toggle_never_leaves_flight_without_allowance() {
    for (allow, flying) in [(false, false), (false, true), (true, false), (true, true)] {
        let mut a = Abilities::new(allow, flying, speed(1.0));
        a.toggle();
        assert!(a.allow_flying || !a.flying);
    }
}

#[test]
fn enable_with_speed_never_disallows() {
    for (allow, flying) in [(false, false), (true, false), (true, true)] {
        let mut a = Abilities::new(allow, flying, speed(1.0));
        a.enable_with_speed(speed(0.0));
        assert!(a.allow_flying);
        assert_eq!(a.flying, flying);
        assert_eq!(a.fly_speed, speed(0.0));
    }
}

#[test]
fn console_self_toggle_fails() {
    let mut roster = vec![player(1, false, false)];
    let before = roster.clone();
    let args = ConsumedArgs { players: None, speed: None };
    let r = execute(Shape::NoArguments, &Sender::Console, &args, &mut roster);
    assert_eq!(r, Err(CommandError::CommandFailed(Failure::SenderNotPlayer)));
    assert_eq!(Failure::SenderNotPlayer.message(), "Failed to get sender as player.");
    assert_eq!(roster, before);
}

#[test]
fn player_self_toggle_changes_only_sender() {
    let mut roster = vec![player(1, false, false), player(2, true, true)];
    let args = ConsumedArgs { players: None, speed: None };
    let r = execute(Shape::NoArguments, &Sender::Player(2), &args, &mut roster);
    assert_eq!(r, Ok(vec![1]));
    assert_eq!(roster[0], player(1, false, false));
    assert!(!roster[1].abilities.allow_flying);
    assert!(!roster[1].abilities.flying);
}

#[test]
fn missing_targets_refused() {
    let args = ConsumedArgs { players: None, speed: None };
    assert_eq!(resolve_targets(&args), Err(CommandError::InvalidArgument(ArgName::Players)));
    assert_eq!(ArgName::Players.as_str(), "players");
    let mut roster = vec![player(1, false, false)];
    let r = execute(Shape::Target, &Sender::Player(1), &args, &mut roster);
    assert_eq!(r, Err(CommandError::InvalidArgument(ArgName::Players)));
    assert_eq!(roster, vec![player(1, false, false)]);
}

#[test]
fn targets_of_wrong_shape_refused() {
    let args = ConsumedArgs { players: Some(Arg::Number(speed(1.0))), speed: Some(Arg::Number(speed(1.0))) };
    let mut roster = vec![player(1, false, false)];
    let r = execute(Shape::TargetAndSpeed, &Sender::Console, &args, &mut roster);
    assert_eq!(r, Err(CommandError::InvalidArgument(ArgName::Players)));
}

#[test]
fn speed_missing_or_wrong_shape_refused() {
    let missing = target_args(vec![1]);
    assert_eq!(resolve_speed(&missing), Err(CommandError::InvalidArgument(ArgName::Speed)));
    let wrong = ConsumedArgs { players: Some(Arg::Players(vec![1])), speed: Some(Arg::Players(vec![2])) };
    assert_eq!(resolve_speed(&wrong), Err(CommandError::InvalidArgument(ArgName::Speed)));
}

#[test]
fn speed_bound_edges() {
    assert_eq!(resolve_speed(&speed_args(vec![], 0.0)), Ok(speed(0.0)));
    assert_eq!(resolve_speed(&speed_args(vec![], -0.0)), Ok(speed(-0.0)));
    assert_eq!(resolve_speed(&speed_args(vec![], f32::INFINITY)), Ok(speed(f32::INFINITY)));
    assert_eq!(resolve_speed(&speed_args(vec![], f32::MIN_POSITIVE)), Ok(speed(f32::MIN_POSITIVE)));
    let bad = [f32::NAN, -f32::NAN, f32::NEG_INFINITY, -1.0e-30, -5.0];
    for v in bad {
        assert_eq!(resolve_speed(&speed_args(vec![], v)), Err(CommandError::InvalidArgument(ArgName::Speed)));
    }
    assert!(speed(3.0).is_at_least_zero());
    assert!(!speed(-3.0).is_at_least_zero());
}

#[test]
fn resolve_copies_targets_and_policy() {
    let inv = resolve(Shape::TargetAndSpeed, &Sender::Console, &speed_args(vec![4, 5], 5.0)).unwrap();
    assert_eq!(inv.targets, vec![4, 5]);
    assert_eq!(inv.policy, Policy::EnableWithSpeed(speed(5.0)));
    assert_eq!(resolve_targets(&target_args(vec![7, 8])), Ok(vec![7, 8]));
    assert_eq!(resolve_self_target(&Sender::Player(3)), Ok(3));
    assert_eq!(Sender::Console.as_player(), None);
}

#[test]
fn is_target_finds_member() {
    assert!(is_target(&vec![3, 9], 9));
    assert!(!is_target(&vec![3, 9], 4));
    assert!(!is_target(&vec![], 4));
}

#[test]
fn registration_declares_command() {
    let reg = FlyCommand::new().registration();
    assert_eq!(reg.name, "fly");
    assert_eq!(reg.name, COMMAND_NAME);
    assert_eq!(reg.description, "Gives you the ability to fly.");
    assert_eq!(reg.permission_node, PERMISSION_NODE);
    assert_eq!(reg.permission_node, "fly_command:fly_command");
    assert_eq!(reg.permission_default, PermissionDefault::Op(1));
    assert_eq!(reg.shapes, vec![Shape::NoArguments, Shape::Target, Shape::TargetAndSpeed]);
    assert_eq!(f32::from_bits(reg.speed_min.bits), 0.0);
    let _ = FlyCommand::default();
}
