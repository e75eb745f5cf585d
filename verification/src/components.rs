//! The game objects and the data each one carries.

use crate::enums::InvaderBulletType;
use crate::enums::ShieldShape;
use crate::enums::Texture;
use crate::enums::Wear;
use crate::geometry::Vec2;
use vstd::prelude::*;

verus! {

/// The player's ship.
#[derive(Clone, Copy, Debug, PartialEq, Eq)]
pub struct Player {
    /// Speed along x, in world units per second.
    pub speed: u32,
    pub lives: u32,
    pub score: u32,
    pub id: PlayerID,
    /// Set by the first hit and kept from then on.
    pub is_hit: bool,
    pub x: i64,
    pub y: i64,
    pub texture: Texture,
}

/// Names a player, so that bullets, score and lives can be attributed.
#[derive(Copy, Debug, PartialEq, Eq, Structural)]
pub struct PlayerID {
    pub id: u32,
}

impl Clone for PlayerID {
    fn clone(&self) -> (c: Self)
        ensures
            c == *self,
    {
        PlayerID { id: self.id }
    }
}

/// One independently destructible piece of a shield.
#[derive(Clone, Debug, PartialEq, Eq)]
pub struct ShieldPart {
    pub health: u32,
    /// One texture per health tier, the most damaged first.
    pub textures: Vec<Texture>,
    pub x: i64,
    pub y: i64,
    /// Whether the picture is drawn flipped along x.
    pub mirrored: bool,
}

impl ShieldPart {
    /// A segment as the simulation keeps it: between one and four points of
    /// health, and a texture for each tier.
    pub open spec fn wf(&self) -> bool {
        &&& 1 <= self.health <= 4
        &&& self.textures@.len() == 4
    }

    /// The tier of a segment with the given health.
    pub open spec fn tier(health: int) -> int {
        health - 1
    }

    /// Index into `textures` of the tier that the segment is in.
    pub fn variant_index(&self) -> (i: usize)
        requires
            self.health >= 1,
        ensures
            i == Self::tier(self.health as int),
            1 <= self.health <= 4 ==> 0 <= i <= 3,
    {
        self.health as usize - 1
    }

    /// The texture of the tier that the segment is in.
    pub fn current_texture(&self) -> (t: Texture)
        requires
            1 <= self.health <= self.textures@.len(),
        ensures
            t == self.textures@[Self::tier(self.health as int)],
    {
        self.textures[self.health as usize - 1]
    }
}

/// Every segment of `shields` is well formed.
pub open spec fn all_sound(shields: Seq<ShieldPart>) -> bool {
    forall|i: int| 0 <= i < shields.len() ==> (#[trigger] shields[i]).wf()
}

/// An invader of the formation.
#[derive(Clone, Copy, Debug, PartialEq, Eq)]
pub struct Invader {
    pub x: i64,
    pub y: i64,
    pub texture: Texture,
    /// Present on the invaders that can fire.
    pub shooter: Option<Shooter>,
}

/// Marks an invader that can fire.
#[derive(Clone, Copy, Debug, PartialEq, Eq)]
pub struct Shooter {}

/// A projectile in flight.
#[derive(Clone, Copy, Debug, PartialEq, Eq)]
pub struct Bullet {
    pub velocity: Vec2,
    pub x: i64,
    pub y: i64,
}

/// A bullet fired by a player.
#[derive(Clone, Copy, Debug, PartialEq, Eq)]
pub struct PlayerBullet {
    pub player_id: PlayerID,
    pub bullet: Bullet,
}

/// A bullet fired by an invader.
#[derive(Clone, Copy, Debug, PartialEq, Eq)]
pub struct InvaderBullet {
    pub bullet_type: InvaderBulletType,
    pub bullet: Bullet,
}

/// One row of the table from which an invader's shot is drawn.
#[derive(Clone, Copy, Debug, PartialEq, Eq)]
pub struct InvaderBulletProbability {
    pub bullet_type: InvaderBulletType,
    /// Chance of this type, in millionths.
    pub probability: u32,
}

/// The score shown for a player.
#[derive(Clone, Copy, Debug, PartialEq, Eq)]
pub struct PlayerScore {
    pub player_id: PlayerID,
    /// The value on display.
    pub shown: u32,
}

/// One icon of the row that shows a player's remaining lives.
#[derive(Clone, Copy, Debug, PartialEq, Eq)]
pub struct PlayerLife {
    pub player_id: PlayerID,
    pub x: i64,
    pub y: i64,
}

/// The words shown when the game is over, placed from the window's top left.
#[derive(Clone, Copy, Debug, PartialEq, Eq)]
pub struct GameOverText {
    pub top: i64,
    pub left: i64,
}

/// The control that restarts the game, placed from the window's top left.
#[derive(Clone, Copy, Debug, PartialEq, Eq)]
pub struct GameRestartButton {
    pub top: i64,
    pub left: i64,
}

/// The label inside the restart control.
#[derive(Clone, Copy, Debug, PartialEq, Eq)]
pub struct GameRestartText {}

/// The textures of a shield segment of the given shape, one per health tier.
pub open spec fn shape_textures(shape: ShieldShape) -> Seq<Texture> {
    seq![
        Texture::Shield(shape, Wear::HeavilyDamaged),
        Texture::Shield(shape, Wear::BadlyDamaged),
        Texture::Shield(shape, Wear::SlightlyDamaged),
        Texture::Shield(shape, Wear::Undamaged),
    ]
}

/// Builds [`shape_textures`].
pub fn textures_of(shape: ShieldShape) -> (v: Vec<Texture>)
    ensures
        v@ == shape_textures(shape),
{
    let mut v: Vec<Texture> = Vec::new();
    v.push(Texture::Shield(shape, Wear::HeavilyDamaged));
    v.push(Texture::Shield(shape, Wear::BadlyDamaged));
    v.push(Texture::Shield(shape, Wear::SlightlyDamaged));
    v.push(Texture::Shield(shape, Wear::Undamaged));
    v
}

} // verus!
