//! The world: a fixed population of agents and the constants it runs with.

use vstd::prelude::*;
use crate::config::Config;
use crate::random::{sample_coordinate, seeded};
use crate::rules::{ticked, update_agent, updated_agent, MAX_POPULATION};
use crate::vector::{inside, Agent, Vec3};

verus! {

/// A population of agents, identified by their index, and its configuration.
pub struct World {
    agents: Vec<Agent>,
    config: Config,
}

impl World {
    /// The agents, in the order of their identifiers.
    pub closed spec fn agents(&self) -> Seq<Agent> {
        self.agents@
    }

    /// The configuration the world was made with.
    pub closed spec fn configuration(&self) -> Config {
        self.config
    }

    /// The configuration is well formed and the population is not too large.
    pub open spec fn well_formed(&self) -> bool {
        &&& self.configuration().well_formed()
        &&& self.agents().len() <= MAX_POPULATION
    }

    /// Makes a world of the given agents, unless the configuration is
    /// ill formed or the agents are too many.
    pub fn new(agents: Vec<Agent>, config: Config) -> (r: Option<World>)
        ensures
            r.is_some() <==> config.well_formed() && agents@.len() <= MAX_POPULATION,
            r.is_some() ==> r.unwrap().well_formed() && r.unwrap().agents() == agents@
                && r.unwrap().configuration() == config,
    {
        if config.is_valid() && agents.len() <= MAX_POPULATION {
            Some(World { agents, config })
        } else {
            None
        }
    }

    /// Makes a world with one agent at each of the given positions, all with
    /// the same velocity.
    pub fn populate(positions: &Vec<Vec3>, velocity: Vec3, config: Config) -> (w: World)
        requires
            config.well_formed(),
            positions@.len() <= MAX_POPULATION,
        ensures
            w.well_formed(),
            w.configuration() == config,
            w.agents().len() == positions@.len(),
            forall|i: int|
                0 <= i < positions@.len() ==> #[trigger] w.agents()[i] == (Agent {
                    position: positions@[i],
                    velocity,
                }),
    {
        let mut agents: Vec<Agent> = Vec::new();
        let mut i: usize = 0;
        while i < positions.len()
            invariant
                i <= positions@.len(),
                agents@.len() == i,
                forall|k: int|
                    0 <= k < i ==> #[trigger] agents@[k] == (Agent {
                        position: positions@[k],
                        velocity,
                    }),
            decreases positions@.len() - i,
        {
            agents.push(Agent { position: positions[i], velocity });
            i = i + 1;
        }
        World { agents, config }
    }

    /// Makes a world of `n` agents, each at a position drawn at random inside
    /// the bounds of the configuration from a generator seeded with `seed`,
    /// and all with the same velocity.
    pub fn initialize(n: u32, config: Config, velocity: Vec3, seed: u64) -> (w: World)
        requires
            config.well_formed(),
        ensures
            w.well_formed(),
            w.configuration() == config,
            w.agents().len() == n,
            forall|i: int|
                0 <= i < n ==> (#[trigger] w.agents()[i]).velocity == velocity && inside(
                    w.agents()[i].position,
                    config.low,
                    config.high,
                ),
    {
        let mut rng = seeded(seed);
        let mut positions: Vec<Vec3> = Vec::new();
        let mut i: u32 = 0;
        while i < n
            invariant
                i <= n,
                config.well_formed(),
                positions@.len() == i,
                forall|k: int|
                    0 <= k < i ==> inside(#[trigger] positions@[k], config.low, config.high),
            decreases n - i,
        {
            let x: i32 = sample_coordinate(&mut rng, config.low.x, config.high.x);
            let y: i32 = sample_coordinate(&mut rng, config.low.y, config.high.y);
            let z: i32 = sample_coordinate(&mut rng, config.low.z, config.high.z);
            positions.push(Vec3 { x, y, z });
            i = i + 1;
        }
        World::populate(&positions, velocity, config)
    }

    /// The number of agents.
    pub fn len(&self) -> (r: usize)
        ensures
            r == self.agents().len(),
    {
        self.agents.len()
    }

    /// The configuration the world was made with.
    pub fn config(&self) -> (r: Config)
        ensures
            r == self.configuration(),
    {
        self.config
    }

    /// The agent with the given identifier.
    pub fn agent(&self, id: usize) -> (r: Agent)
        requires
            id < self.agents().len(),
        ensures
            r == self.agents()[id as int],
    {
        self.agents[id]
    }

    /// A copy of every agent's state, in the order of their identifiers.
    pub fn snapshot(&self) -> (r: Vec<Agent>)
        ensures
            r@ == self.agents(),
    {
        let mut copy: Vec<Agent> = Vec::new();
        let mut i: usize = 0;
        while i < self.agents.len()
            invariant
                i <= self.agents@.len(),
                copy@ == self.agents@.subrange(0, i as int),
            decreases self.agents@.len() - i,
        {
            copy.push(self.agents[i]);
            assert(copy@ == self.agents@.subrange(0, i + 1));
            i = i + 1;
        }
        assert(self.agents@.subrange(0, i as int) == self.agents@);
        copy
    }

    /// Commits a new position and velocity to one agent; the others stay.
    pub fn apply(&mut self, id: usize, new_position: Vec3, new_velocity: Vec3)
        requires
            id < old(self).agents().len(),
        ensures
            final(self).agents() == old(self).agents().update(
                id as int,
                Agent { position: new_position, velocity: new_velocity },
            ),
            final(self).configuration() == old(self).configuration(),
    {
        self.agents.set(id, Agent { position: new_position, velocity: new_velocity });
    }

    /// Advances the world by one tick of length `dt`, in thousandths of the
    /// unit of time: every agent is computed from the population as it was
    /// before the tick, and only then committed.
    pub fn update(&mut self, dt: i32)
        requires
            old(self).well_formed(),
        ensures
            final(self).well_formed(),
            final(self).configuration() == old(self).configuration(),
            final(self).agents() == ticked(
                old(self).agents(),
                old(self).configuration(),
                dt as int,
            ),
    {
        let snap: Vec<Agent> = self.snapshot();
        let n: usize = snap.len();
        let config: Config = self.config;
        let mut next: Vec<Agent> = Vec::new();
        let mut i: usize = 0;
        while i < n
            invariant
                i <= n,
                n == snap@.len(),
                n <= MAX_POPULATION,
                config.well_formed(),
                next@.len() == i,
                forall|k: int|
                    0 <= k < i ==> #[trigger] next@[k] == updated_agent(
                        snap@,
                        k,
                        config,
                        dt as int,
                    ),
            decreases n - i,
        {
            next.push(update_agent(&snap, i, &config, dt));
            i = i + 1;
        }
        let mut id: usize = 0;
        while id < n
            invariant
                id <= n,
                n == next@.len(),
                self.agents@.len() == n,
                self.config == config,
                forall|k: int| 0 <= k < id ==> #[trigger] self.agents@[k] == next@[k],
            decreases n - id,
        {
            let a: Agent = next[id];
            self.apply(id, a.position, a.velocity);
            id = id + 1;
        }
        assert(self.agents@ =~= ticked(snap@, config, dt as int));
    }
}

} // verus!
