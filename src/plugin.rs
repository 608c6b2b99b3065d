use vstd::prelude::*;

use crate::abilities::FlySpeed;
use crate::command::Shape;

verus! {

/// The name under which the command is registered.
pub const COMMAND_NAME: &'static str = "fly";

/// The help text of the command.
pub const DESCRIPTION: &'static str = "Gives you the ability to fly.";

/// The permission node that guards the command.
pub const PERMISSION_NODE: &'static str = "fly_command:fly_command";

/// The operator level to which the permission is granted by default.
pub const DEFAULT_OP_LEVEL: u8 = 1;

/// Who holds a permission unless configured otherwise.
#[derive(Clone, Copy, Debug, PartialEq, Eq, Structural)]
pub enum PermissionDefault {
    Deny,
    Allow,
    /// Operators at this level or above.
    Op(u8),
}

/// What the plugin hands to the host when it is loaded.
#[derive(Debug)]
pub struct Registration {
    pub name: &'static str,
    pub description: &'static str,
    pub permission_node: &'static str,
    pub permission_default: PermissionDefault,
    /// The argument shapes, each bound to its executor by the host.
    pub shapes: Vec<Shape>,
    /// The lower bound, inclusive, that the speed argument is parsed against.
    pub speed_min: FlySpeed,
}

/// The plugin that provides the `fly` command.
#[derive(Debug)]
pub struct FlyCommand {}

impl FlyCommand {
    pub fn new() -> (r: FlyCommand)
        ensures
            r == (FlyCommand {}),
    {
        FlyCommand {}
    }

    /// The command, its permission and its argument shapes, as registered at load.
    pub fn registration(&self) -> (r: Registration)
        ensures
            r.name == COMMAND_NAME,
            r.description == DESCRIPTION,
            r.permission_node == PERMISSION_NODE,
            r.permission_default == PermissionDefault::Op(DEFAULT_OP_LEVEL),
            r.shapes@ == seq![Shape::NoArguments, Shape::Target, Shape::TargetAndSpeed],
            r.speed_min.bits == 0,
    {
        let shapes = vec![Shape::NoArguments, Shape::Target, Shape::TargetAndSpeed];
        assert(shapes@ =~= seq![Shape::NoArguments, Shape::Target, Shape::TargetAndSpeed]);
        Registration {
            name: COMMAND_NAME,
            description: DESCRIPTION,
            permission_node: PERMISSION_NODE,
            permission_default: PermissionDefault::Op(DEFAULT_OP_LEVEL),
            shapes,
            speed_min: FlySpeed { bits: 0 },
        }
    }
}

impl Default for FlyCommand {
    fn default() -> (r: FlyCommand)
        ensures
            r == (FlyCommand {}),
    {
        FlyCommand::new()
    }
}

} // verus!
