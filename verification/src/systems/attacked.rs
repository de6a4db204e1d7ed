//! What ends the player: the touch of an enemy, or of a projectile.
use vstd::prelude::*;
use crate::audio::SoundType;
use crate::collider::Aabb;
use crate::playablearea::PlayableArea;
use crate::systems::Body;

verus! {

/// The player as a collision sees it.
#[derive(Clone, Copy, Debug, PartialEq, Eq, Structural)]
pub struct PlayerBody {
    pub body: Body,
    pub invulnerable: bool,
}

/// How many of the first `upto` bodies touch the box `aabb`.
pub open spec fn touching(bodies: Seq<Body>, aabb: Aabb, upto: nat) -> nat
    decreases upto,
{
    if upto == 0 {
        0
    } else {
        touching(bodies, aabb, (upto - 1) as nat) + if bodies[upto - 1].touches(aabb) {
            1nat
        } else {
            0nat
        }
    }
}

/// The number of blows that a player takes from the given enemies: one for
/// each enemy that touches it, and none at all while it is invulnerable.
pub open spec fn blows(player: PlayerBody, enemies: Seq<Body>) -> nat {
    if player.invulnerable {
        0
    } else {
        touching(enemies, player.body.aabb(), enemies.len())
    }
}

/// What a tick of enemy contact leaves to do: for each player the number of
/// blows that it took, and the sound of a blow. A player that took a blow is
/// deleted, and the sound is played for every blow.
#[derive(Debug)]
pub struct AttackOutcome {
    pub hits: Vec<usize>,
    pub sound: SoundType,
}

/// Enemies against the player.
#[derive(Clone, Copy, Debug, Default, PartialEq, Eq, Structural)]
pub struct AttackedSystem;

impl AttackedSystem {
    /// Counts, for each player, the enemies that touch it while it can be
    /// hurt. Each blow sounds the player's death, and a player with at
    /// least one blow is deleted.
    pub fn run(players: &Vec<PlayerBody>, enemies: &Vec<Body>) -> (outcome: AttackOutcome)
        ensures
            outcome.sound == SoundType::PlayerDeath,
            outcome.hits@.len() == players@.len(),
            forall|i: int|
                0 <= i < players@.len() ==> #[trigger] outcome.hits@[i] == blows(
                    players@[i],
                    enemies@,
                ),
    {
        let mut hits: Vec<usize> = Vec::new();
        let mut i: usize = 0;
        while i < players.len()
            invariant
                i <= players@.len(),
                hits@.len() == i,
                forall|h: int| 0 <= h < i ==> #[trigger] hits@[h] == blows(players@[h], enemies@),
            decreases players@.len() - i,
        {
            let player = players[i];
            let player_aabb = player.body.bounding_box();
            let mut count: usize = 0;
            let mut j: usize = 0;
            while j < enemies.len()
                invariant
                    j <= enemies@.len(),
                    player_aabb == player.body.aabb(),
                    count <= j,
                    count == if player.invulnerable {
                        0
                    } else {
                        touching(enemies@, player_aabb, j as nat)
                    },
                decreases enemies@.len() - j,
            {
                let collides = enemies[j].intersects(&player_aabb);
                if collides && !player.invulnerable {
                    count += 1;
                }
                j += 1;
            }
            hits.push(count);
            i += 1;
        }
        AttackOutcome { hits, sound: SoundType::PlayerDeath }
    }
}

/// What a tick of projectile collisions leaves to do: the players and the
/// projectiles to delete.
#[derive(Debug)]
pub struct ProjectileOutcome {
    pub players_hit: Vec<bool>,
    pub projectiles_spent: Vec<bool>,
}

/// Whether one of the first `upto` bodies touches the box `aabb`.
pub open spec fn touched_by_any(bodies: Seq<Body>, aabb: Aabb, upto: int) -> bool {
    exists|j: int| 0 <= j < upto && (#[trigger] bodies[j]).touches(aabb)
}

/// Whether `projectile` touches one of the first `upto` players.
pub open spec fn touches_any(projectile: Body, players: Seq<PlayerBody>, upto: int) -> bool {
    exists|i: int| 0 <= i < upto && projectile.touches((#[trigger] players[i]).body.aabb())
}

/// Projectiles against the player.
#[derive(Clone, Copy, Debug, Default, PartialEq, Eq, Structural)]
pub struct ProjectileHitSystem;

impl ProjectileHitSystem {
    /// Tries every projectile on every player. A player that a projectile
    /// touches is deleted unless it is invulnerable; the projectile is spent
    /// either way. While there is a player, a projectile that has left the
    /// field is spent too.
    pub fn run(players: &Vec<PlayerBody>, projectiles: &Vec<Body>, playable_area: &PlayableArea) -> (outcome: ProjectileOutcome)
        ensures
            outcome.players_hit@.len() == players@.len(),
            forall|i: int|
                0 <= i < players@.len() ==> #[trigger] outcome.players_hit@[i] == (
                !players@[i].invulnerable && touched_by_any(
                    projectiles@,
                    players@[i].body.aabb(),
                    projectiles@.len() as int,
                )),
            outcome.projectiles_spent@.len() == projectiles@.len(),
            forall|j: int|
                0 <= j < projectiles@.len() ==> #[trigger] outcome.projectiles_spent@[j] == (
                players@.len() > 0 && (playable_area.outside(projectiles@[j].x, projectiles@[j].y)
                    || touches_any(projectiles@[j], players@, players@.len() as int))),
    {
        let n_players = players.len();
        let n_projectiles = projectiles.len();
        let mut players_hit: Vec<bool> = Vec::new();
        let mut projectiles_spent: Vec<bool> = Vec::new();
        let mut k: usize = 0;
        while k < n_projectiles
            invariant
                k <= n_projectiles,
                projectiles_spent@.len() == k,
                forall|j: int| 0 <= j < k ==> !(#[trigger] projectiles_spent@[j]),
            decreases n_projectiles - k,
        {
            projectiles_spent.push(false);
            k += 1;
        }
        let mut i: usize = 0;
        while i < n_players
            invariant
                n_players == players@.len(),
                n_projectiles == projectiles@.len(),
                i <= n_players,
                players_hit@.len() == i,
                projectiles_spent@.len() == n_projectiles,
                forall|h: int|
                    0 <= h < i ==> #[trigger] players_hit@[h] == (!players@[h].invulnerable
                        && touched_by_any(projectiles@, players@[h].body.aabb(), n_projectiles as int)),
                forall|j: int|
                    0 <= j < n_projectiles ==> #[trigger] projectiles_spent@[j] == (i > 0 && (
                    playable_area.outside(projectiles@[j].x, projectiles@[j].y) || touches_any(
                        projectiles@[j],
                        players@,
                        i as int,
                    ))),
            decreases n_players - i,
        {
            let player = players[i];
            let player_aabb = player.body.bounding_box();
            let mut hit = false;
            let mut j: usize = 0;
            while j < n_projectiles
                invariant
                    n_players == players@.len(),
                    n_projectiles == projectiles@.len(),
                    i < n_players,
                    j <= n_projectiles,
                    player == players@[i as int],
                    player_aabb == player.body.aabb(),
                    projectiles_spent@.len() == n_projectiles,
                    hit == (!player.invulnerable && touched_by_any(
                        projectiles@,
                        player_aabb,
                        j as int,
                    )),
                    forall|m: int|
                        0 <= m < j ==> #[trigger] projectiles_spent@[m] == (playable_area.outside(
                            projectiles@[m].x,
                            projectiles@[m].y,
                        ) || touches_any(projectiles@[m], players@, (i + 1) as int)),
                    forall|m: int|
                        j <= m < n_projectiles ==> #[trigger] projectiles_spent@[m] == (i > 0 && (
                        playable_area.outside(projectiles@[m].x, projectiles@[m].y)
                            || touches_any(projectiles@[m], players@, i as int))),
                decreases n_projectiles - j,
            {
                let projectile = projectiles[j];
                let collides = projectile.intersects(&player_aabb);
                let ghost hit_before = hit;
                let ghost spent_before = projectiles_spent@[j as int];
                if collides {
                    if !player.invulnerable {
                        hit = true;
                    }
                    projectiles_spent.set(j, true);
                }
                if playable_area.out_of_bounds(projectile.x, projectile.y) {
                    projectiles_spent.set(j, true);
                }
                proof {
                    assert(touched_by_any(projectiles@, player_aabb, (j + 1) as int) == (
                    touched_by_any(projectiles@, player_aabb, j as int) || collides)) by {
                        if touched_by_any(projectiles@, player_aabb, (j + 1) as int) {
                            let w = choose|w: int|
                                0 <= w < j + 1 && (#[trigger] projectiles@[w]).touches(player_aabb);
                            if w < j {
                                assert(projectiles@[w].touches(player_aabb));
                            }
                        }
                        if collides {
                            assert(projectiles@[j as int].touches(player_aabb));
                        }
                    }
                    assert(touches_any(projectile, players@, (i + 1) as int) == (touches_any(
                        projectile,
                        players@,
                        i as int,
                    ) || collides)) by {
                        if touches_any(projectile, players@, (i + 1) as int) {
                            let w = choose|w: int|
                                0 <= w < i + 1 && projectile.touches(
                                    (#[trigger] players@[w]).body.aabb(),
                                );
                            if w < i {
                                assert(projectile.touches(players@[w].body.aabb()));
                            }
                        }
                        if collides {
                            assert(projectile.touches(players@[i as int].body.aabb()));
                        }
                    }
                    if i == 0 {
                        assert(!touches_any(projectile, players@, 0));
                    }
                }
                j += 1;
            }
            players_hit.push(hit);
            i += 1;
        }
        ProjectileOutcome { players_hit, projectiles_spent }
    }
}

/// An invulnerable player takes no blow, and without enemies nobody does.
pub proof fn lemma_no_blow(player: PlayerBody, enemies: Seq<Body>)
    ensures
        player.invulnerable ==> blows(player, enemies) == 0,
        enemies.len() == 0 ==> blows(player, enemies) == 0,
{
}

/// A player takes a blow exactly when it can be hurt and an enemy touches
/// it, and never more blows than there are enemies.
pub proof fn lemma_blows(player: PlayerBody, enemies: Seq<Body>, upto: nat)
    requires
        upto <= enemies.len(),
    ensures
        touching(enemies, player.body.aabb(), upto) <= upto,
        touching(enemies, player.body.aabb(), upto) > 0 <==> touched_by_any(
            enemies,
            player.body.aabb(),
            upto as int,
        ),
    decreases upto,
{
    if upto > 0 {
        lemma_blows(player, enemies, (upto - 1) as nat);
        let aabb = player.body.aabb();
        if touched_by_any(enemies, aabb, upto as int) {
            let w = choose|w: int| 0 <= w < upto && (#[trigger] enemies[w]).touches(aabb);
            if w < upto - 1 {
                assert(touched_by_any(enemies, aabb, upto - 1));
            }
        }
        if touching(enemies, aabb, upto) > 0 {
            if enemies[upto - 1].touches(aabb) {
                assert(touched_by_any(enemies, aabb, upto as int));
            } else {
                let w = choose|w: int| 0 <= w < upto - 1 && (#[trigger] enemies[w]).touches(aabb);
                assert(enemies[w].touches(aabb));
            }
        }
    }
}

} // verus!
