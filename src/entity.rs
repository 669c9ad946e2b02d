//! Entities: the universal simulated object, with bounded resource pools.
use vstd::prelude::*;

verus! {

/// The identity of a connected actor, handed over by the identity collaborator.
#[derive(Clone, Copy, Debug, PartialEq, Eq, Structural, Hash)]
pub struct Identity(pub u128);

#[derive(Clone, Copy, Debug, PartialEq, Eq, Structural)]
pub enum EntityType {
    Player,
    NPC,
    Item,
    Container,
    Fixture,
}

/// Any simulated actor or object. Lengths, volumes and weights are in
/// thousandths of a unit; positions are informational.
#[derive(Clone, Debug)]
pub struct Entity {
    pub id: u64,
    pub identity: Option<Identity>,
    pub entity_type: EntityType,
    pub name: String,
    pub description: String,
    pub room_id: u64,
    pub x: i32,
    pub y: i32,
    pub z: i32,
    pub volume: u32,
    pub weight: u32,
    pub max_capacity: u32,
    pub hp: i32,
    pub max_hp: i32,
    pub stamina: i32,
    pub max_stamina: i32,
    pub mana: i32,
    pub max_mana: i32,
    pub dexterity: u8,
    pub strength: u8,
    pub vitality: u8,
    pub perception: u8,
    pub willpower: u8,
    pub is_alive: bool,
    pub is_active: bool,
    pub created_at: i64,
    pub last_action_at: i64,
}

/// One of the three resource pools of an entity.
#[derive(Clone, Copy, Debug, PartialEq, Eq, Structural)]
pub enum Pool {
    Hp,
    Stamina,
    Mana,
}

#[derive(Clone, Copy, Debug, PartialEq, Eq, Structural)]
pub enum ResourceError {
    InsufficientResource,
}

/// `v` clamped to `[lo, hi]` (with `lo <= hi`).
pub open spec fn clamp(v: int, lo: int, hi: int) -> int {
    if v < lo {
        lo
    } else if v > hi {
        hi
    } else {
        v
    }
}

impl Entity {
    pub fn duplicate(&self) -> (r: Entity)
        ensures
            r == *self,
    {
        Entity {
            id: self.id,
            identity: self.identity,
            entity_type: self.entity_type,
            name: self.name.clone(),
            description: self.description.clone(),
            room_id: self.room_id,
            x: self.x,
            y: self.y,
            z: self.z,
            volume: self.volume,
            weight: self.weight,
            max_capacity: self.max_capacity,
            hp: self.hp,
            max_hp: self.max_hp,
            stamina: self.stamina,
            max_stamina: self.max_stamina,
            mana: self.mana,
            max_mana: self.max_mana,
            dexterity: self.dexterity,
            strength: self.strength,
            vitality: self.vitality,
            perception: self.perception,
            willpower: self.willpower,
            is_alive: self.is_alive,
            is_active: self.is_active,
            created_at: self.created_at,
            last_action_at: self.last_action_at,
        }
    }

    /// Pools lie within `[0, max]`, and an entity with no hp left is dead.
    pub open spec fn wf(&self) -> bool {
        &&& 0 <= self.hp <= self.max_hp
        &&& 0 <= self.stamina <= self.max_stamina
        &&& 0 <= self.mana <= self.max_mana
        &&& self.hp == 0 ==> !self.is_alive
    }

    /// The entity after taking `amount` damage (a negative amount heals).
    pub open spec fn damaged(self, amount: int) -> Entity {
        let hp = clamp(self.hp - amount, 0, self.max_hp as int) as i32;
        Entity { hp, is_alive: self.is_alive && hp != 0, ..self }
    }

    pub open spec fn pool_value(self, pool: Pool) -> int {
        match pool {
            Pool::Hp => self.hp as int,
            Pool::Stamina => self.stamina as int,
            Pool::Mana => self.mana as int,
        }
    }

    pub open spec fn pool_max(self, pool: Pool) -> int {
        match pool {
            Pool::Hp => self.max_hp as int,
            Pool::Stamina => self.max_stamina as int,
            Pool::Mana => self.max_mana as int,
        }
    }

    /// The entity with the given pool set to `v`; spending hp down to zero kills.
    pub open spec fn with_pool(self, pool: Pool, v: int) -> Entity {
        match pool {
            Pool::Hp => Entity { hp: v as i32, is_alive: self.is_alive && v != 0, ..self },
            Pool::Stamina => Entity { stamina: v as i32, ..self },
            Pool::Mana => Entity { mana: v as i32, ..self },
        }
    }

    /// Subtracts `amount` from hp, clamping the result to `[0, max_hp]`;
    /// an entity whose hp reaches zero is no longer alive.
    pub fn apply_damage(&mut self, amount: i64)
        requires
            old(self).wf(),
        ensures
            *final(self) == old(self).damaged(amount as int),
            final(self).wf(),
    {
        let hp = self.hp as i64;
        let new_hp: i32 = if amount >= hp {
            0
        } else if amount <= hp - self.max_hp as i64 {
            self.max_hp
        } else {
            (hp - amount) as i32
        };
        self.hp = new_hp;
        if new_hp == 0 {
            self.is_alive = false;
        }
    }

    pub fn pool(&self, pool: Pool) -> (r: i32)
        ensures
            r == self.pool_value(pool),
    {
        match pool {
            Pool::Hp => self.hp,
            Pool::Stamina => self.stamina,
            Pool::Mana => self.mana,
        }
    }

    /// Spends `amount` of a pool: fails when `amount` exceeds what the pool
    /// holds, otherwise lowers it, clamped to `[0, max]`.
    pub fn spend_resource(&mut self, pool: Pool, amount: i32) -> (r: Result<(), ResourceError>)
        requires
            old(self).wf(),
        ensures
            r is Err <==> amount > old(self).pool_value(pool),
            r is Err ==> *final(self) == *old(self),
            r is Ok ==> *final(self) == old(self).with_pool(
                pool,
                clamp(old(self).pool_value(pool) - amount, 0, old(self).pool_max(pool)),
            ),
            final(self).wf(),
    {
        let cur = self.pool(pool) as i64;
        if amount as i64 > cur {
            return Err(ResourceError::InsufficientResource);
        }
        let max: i64 = match pool {
            Pool::Hp => self.max_hp as i64,
            Pool::Stamina => self.max_stamina as i64,
            Pool::Mana => self.max_mana as i64,
        };
        let v = cur - amount as i64;
        let nv: i32 = if v > max { max as i32 } else { v as i32 };
        match pool {
            Pool::Hp => {
                self.hp = nv;
                if nv == 0 {
                    self.is_alive = false;
                }
            },
            Pool::Stamina => {
                self.stamina = nv;
            },
            Pool::Mana => {
                self.mana = nv;
            },
        }
        Ok(())
    }
}

/// Damage never leaves hp outside `[0, max_hp]`, and an entity left with no
/// hp is dead.
pub proof fn lemma_damage_keeps_bounds(e: Entity, amount: int)
    requires
        e.wf(),
    ensures
        0 <= e.damaged(amount).hp <= e.max_hp,
        e.damaged(amount).hp == 0 ==> !e.damaged(amount).is_alive,
        e.damaged(amount).wf(),
{
}

} // verus!
