//! Small enumerations shared by the components.

use vstd::prelude::*;

verus! {

/// The direction in which the whole formation marches.
#[derive(Clone, Copy, Debug, PartialEq, Eq, Structural)]
pub enum InvaderDirection {
    Left,
    Right,
}

/// What an invader fires. A `Bullet` damages shields and players; a `Bolt`
/// passes through shields and damages only players.
#[derive(Clone, Copy, Debug, PartialEq, Eq, Structural)]
pub enum InvaderBulletType {
    Bullet,
    Bolt,
}

/// The outline of a shield segment.
#[derive(Clone, Copy, Debug, PartialEq, Eq, Structural)]
pub enum ShieldShape {
    Block,
    Corner1,
    Corner2,
}

/// How worn a shield segment looks.
#[derive(Clone, Copy, Debug, PartialEq, Eq, Structural)]
pub enum Wear {
    HeavilyDamaged,
    BadlyDamaged,
    SlightlyDamaged,
    Undamaged,
}

/// The picture that stands for an entity on screen.
#[derive(Clone, Copy, Debug, PartialEq, Eq, Structural)]
pub enum Texture {
    Player,
    PlayerHit1,
    PlayerHit2,
    PlayerBullet,
    InvaderBullet,
    InvaderBolt,
    Invader1,
    Invader2,
    Invader3,
    Shield(ShieldShape, Wear),
}

/// What the pointer does to the restart control.
#[derive(Clone, Copy, Debug, PartialEq, Eq, Structural)]
pub enum Interaction {
    Pressed,
    Hovered,
    Idle,
}

/// The pointer's shape over the window.
#[derive(Clone, Copy, Debug, PartialEq, Eq, Structural)]
pub enum CursorIcon {
    Pointer,
    Arrow,
}

impl InvaderDirection {
    /// The opposite direction.
    pub open spec fn reversed(self) -> InvaderDirection {
        match self {
            InvaderDirection::Left => InvaderDirection::Right,
            InvaderDirection::Right => InvaderDirection::Left,
        }
    }

    /// The sign of a step along x in this direction.
    pub open spec fn sign(self) -> int {
        match self {
            InvaderDirection::Left => -1,
            InvaderDirection::Right => 1,
        }
    }
}

} // verus!
