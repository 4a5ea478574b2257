//! Privacy-preserving payout order: the next winner of a circle is drawn
//! from a seeded Mersenne-Twister-style generator and kept hidden until it
//! is revealed.
use vstd::prelude::*;
use std::collections::BTreeMap;

verus! {

broadcast use vstd::std_specs::btree::group_btree_axioms;

/// Size of the generator state.
pub const MT_N: usize = 624;
/// Twist offset.
pub const MT_M: usize = 397;
pub const MT_MATRIX_A: u32 = 0x9908b0df;
pub const MT_UPPER_MASK: u32 = 0x80000000;

/// Stealth-mode configuration of one circle.
#[derive(Clone, Copy, Debug, PartialEq, Eq, Structural)]
pub struct StealthConfig {
    pub enabled: bool,
    pub seed: u64,
    pub round_number: u32,
    pub pending_winner: Option<u32>,
    pub revealed_winner: Option<u32>,
}

/// The configuration a circle has before stealth mode was ever set up.
pub open spec fn default_stealth_config() -> StealthConfig {
    StealthConfig { enabled: false, seed: 0, round_number: 0, pending_winner: None, revealed_winner: None }
}

impl Default for StealthConfig {
    fn default() -> (r: Self)
        ensures
            r == default_stealth_config(),
    {
        StealthConfig { enabled: false, seed: 0, round_number: 0, pending_winner: None, revealed_winner: None }
    }
}

/// State of the generator: the word array and the next read position.
#[derive(Clone)]
pub struct RngState {
    pub state: [u32; 624],
    pub index: u32,
}

impl Default for RngState {
    fn default() -> (r: Self)
        ensures
            r.index == MT_N,
            forall|i: int| 0 <= i < MT_N ==> r.state@[i] == 0,
    {
        RngState { state: [0u32; 624], index: 624 }
    }
}

/// Storage key of a circle's stealth configuration.
#[derive(Clone, Copy, Debug, PartialEq, Eq, Structural)]
pub enum StealthDataKey {
    Config(u64),
}

// --- generator model ---

/// The `i`-th word of the state seeded with `seed`.
pub open spec fn mt_init_word(seed: u64, i: nat) -> u32
    decreases i,
{
    if i == 0 {
        seed as u32
    } else {
        let prev = mt_init_word(seed, (i - 1) as nat);
        (1812433253u32).wrapping_mul(prev ^ (prev >> 30u32)).wrapping_add(i as u32)
    }
}

/// Tempering applied to every generated word.
pub open spec fn temper(y0: u32) -> u32 {
    let y1 = y0 ^ (y0 >> 11u32);
    let y2 = y1 ^ ((y1 << 7u32) & 0x9d2c5680u32);
    let y3 = y2 ^ ((y2 << 15u32) & 0xefc60000u32);
    y3 ^ (y3 >> 18u32)
}

/// The twist of one word given its partner word `x`.
pub open spec fn twist(y: u32, x: u32) -> u32 {
    let y2 = y.wrapping_mul(2);
    if x & MT_UPPER_MASK != 0 { y2 ^ MT_MATRIX_A } else { y2 }
}

/// The `i`-th word after an in-place reload of `s`: the first `N - M`
/// words twist against untouched words, the rest against already reloaded ones.
pub open spec fn reloaded_word(s: Seq<u32>, i: nat) -> u32
    decreases i,
{
    if i < MT_N - MT_M {
        twist(s[i as int], s[i + MT_M])
    } else if i < MT_N {
        twist(s[i as int], reloaded_word(s, (i + MT_M - MT_N) as nat))
    } else {
        0
    }
}

/// The words of the state seeded with `seed`.
pub open spec fn mt_init_state(seed: u64) -> Seq<u32> {
    Seq::new(MT_N as nat, |i: int| mt_init_word(seed, i as nat))
}

/// Seeds a generator state.
pub fn mt_init(seed: u64) -> (r: RngState)
    ensures
        r.index == MT_N,
        forall|i: int| 0 <= i < MT_N ==> r.state@[i] == mt_init_word(seed, i as nat),
        r.state@ == mt_init_state(seed),
{
    let mut state = [0u32; 624];
    state[0] = seed as u32;
    let mut i: usize = 1;
    while i < MT_N
        invariant
            1 <= i <= MT_N,
            forall|k: int| 0 <= k < i ==> state@[k] == mt_init_word(seed, k as nat),
        decreases MT_N - i,
    {
        let prev = state[i - 1];
        state[i] = (1812433253u32).wrapping_mul(prev ^ (prev >> 30)).wrapping_add(i as u32);
        i = i + 1;
    }
    assert(state@ =~= mt_init_state(seed));
    RngState { state, index: 624 }
}

/// Reloads the generator state.
fn mt_reload(rng: &mut RngState)
    ensures
        final(rng).index == 0,
        forall|i: int| 0 <= i < MT_N ==> final(rng).state@[i] == reloaded_word(old(rng).state@, i as nat),
{
    let ghost s0 = rng.state@;
    let mut i: usize = 0;
    while i < MT_N
        invariant
            i <= MT_N,
            rng.state@.len() == MT_N,
            forall|k: int| 0 <= k < i ==> rng.state@[k] == reloaded_word(s0, k as nat),
            forall|k: int| i <= k < MT_N ==> rng.state@[k] == s0[k],
        decreases MT_N - i,
    {
        let x = if i < MT_N - MT_M { rng.state[i + MT_M] } else { rng.state[i + MT_M - MT_N] };
        let mut y = rng.state[i];
        y = y.wrapping_mul(2);
        if (x & MT_UPPER_MASK) != 0 {
            y = y ^ MT_MATRIX_A;
        }
        rng.state[i] = y;
        i = i + 1;
    }
    rng.index = 0;
}

/// The generator words and index after one draw from words `state` at
/// position `index`, and the drawn number.
pub open spec fn mt_step_at(state: Seq<u32>, index: u32) -> (Seq<u32>, u32, u32) {
    let s = if index >= MT_N {
        Seq::new(MT_N as nat, |i: int| reloaded_word(state, i as nat))
    } else {
        state
    };
    let idx = if index >= MT_N { 0 } else { index };
    (s, (idx + 1) as u32, temper(s[idx as int]))
}

/// The generator after one draw, and the drawn number.
pub open spec fn mt_step(rng: RngState) -> (Seq<u32>, u32, u32) {
    mt_step_at(rng.state@, rng.index)
}

/// Draws the next 32-bit number.
pub fn mt_next(rng: &mut RngState) -> (r: u32)
    requires
        old(rng).index <= MT_N,
    ensures
        final(rng).state@ == mt_step(*old(rng)).0,
        final(rng).index == mt_step(*old(rng)).1,
        r == mt_step(*old(rng)).2,
        final(rng).index <= MT_N,
{
    if rng.index >= 624 {
        mt_reload(rng);
        assert(rng.state@ =~= mt_step(*old(rng)).0);
    }
    let mut y = rng.state[rng.index as usize];
    rng.index = rng.index + 1;
    y = y ^ (y >> 11);
    y = y ^ ((y << 7) & 0x9d2c5680u32);
    y = y ^ ((y << 15) & 0xefc60000u32);
    y = y ^ (y >> 18);
    y
}

/// Most draws [`mt_range`] makes before it takes the last draw regardless.
pub const MT_RANGE_MAX_DRAWS: u32 = 0xffff_ffff;

/// Rejection sampling of a draw in `0..max` (for `max > 0`), from words
/// `state` at position `index`, after `draws` rejected draws: the generator
/// words and index after the accepted draw, and that draw reduced modulo
/// `max`. A draw is accepted below `u32::MAX - u32::MAX % max`, or when it is
/// draw number `MT_RANGE_MAX_DRAWS`.
pub open spec fn range_draw(state: Seq<u32>, index: u32, max: u32, draws: u32) -> (Seq<u32>, u32, u32)
    decreases MT_RANGE_MAX_DRAWS - draws,
{
    let (s2, i2, r) = mt_step_at(state, index);
    if max == 0 || r < u32::MAX - (u32::MAX % max) || draws >= MT_RANGE_MAX_DRAWS {
        (s2, i2, if max == 0 { 0 } else { (r % max) as u32 })
    } else {
        range_draw(s2, i2, max, (draws + 1) as u32)
    }
}

/// A draw in `0..max` by rejection sampling: draws repeat while they fall in
/// the biased tail `[bound, u32::MAX]`; the result is the first accepted draw
/// reduced modulo `max` (`0` when `max` is `0`).
pub fn mt_range(rng: &mut RngState, max: u32) -> (r: u32)
    requires
        old(rng).index <= MT_N,
    ensures
        max == 0 ==> r == 0 && *final(rng) == *old(rng),
        max > 0 ==> r < max,
        max > 0 ==> ({
            let (s, i, v) = range_draw(old(rng).state@, old(rng).index, max, 0);
            &&& final(rng).state@ == s
            &&& final(rng).index == i
            &&& r == v
        }),
        final(rng).index <= MT_N,
{
    if max == 0 {
        return 0;
    }
    let bound = u32::MAX - (u32::MAX % max);
    let mut draws: u32 = 0;
    loop
        invariant
            rng.index <= MT_N,
            max > 0,
            bound == u32::MAX - (u32::MAX % max),
            range_draw(rng.state@, rng.index, max, draws) == range_draw(old(rng).state@, old(rng).index, max, 0),
        decreases MT_RANGE_MAX_DRAWS - draws,
    {
        let ghost before = *rng;
        let r = mt_next(rng);
        proof {
            assert(mt_step(before) == mt_step_at(before.state@, before.index));
        }
        if r < bound || draws == MT_RANGE_MAX_DRAWS {
            return r % max;
        }
        draws = draws + 1;
    }
}

/// The seed of round `round` derived from `base_seed`.
pub open spec fn spec_derive_seed(base_seed: u64, round: u32) -> u64 {
    base_seed.wrapping_add(round as u64).wrapping_mul(0x5deece66d).wrapping_add(0xb)
}

/// Derives a new seed from a base seed and a round number.
pub fn derive_seed(base_seed: u64, round: u32) -> (r: u64)
    ensures
        r == spec_derive_seed(base_seed, round),
{
    let mut seed = base_seed.wrapping_add(round as u64);
    seed = seed.wrapping_mul(0x5deece66d);
    seed = seed.wrapping_add(0xb);
    seed
}

/// A seed mixed from the ledger's timestamp and sequence and the length of
/// the contract's address text.
pub open spec fn spec_random_seed(timestamp: u64, sequence: u32, contract_addr_len: u64) -> u64 {
    timestamp.wrapping_mul(0x5deece66d).wrapping_add(sequence as u64)
        .wrapping_add(contract_addr_len.wrapping_mul(0x9e3779b97f4a7c15))
}

/// Mixes ledger entropy into a seed.
pub fn generate_random_seed(timestamp: u64, sequence: u32, contract_addr_len: u64) -> (r: u64)
    ensures
        r == spec_random_seed(timestamp, sequence, contract_addr_len),
{
    let mut seed = timestamp.wrapping_mul(0x5deece66d);
    seed = seed.wrapping_add(sequence as u64);
    seed = seed.wrapping_add(contract_addr_len.wrapping_mul(0x9e3779b97f4a7c15));
    seed
}

/// The configuration after a winner `winner` was prepared for the next round.
pub open spec fn prepared_config(c: StealthConfig, winner: u32) -> StealthConfig {
    StealthConfig {
        enabled: c.enabled,
        seed: if c.enabled { spec_derive_seed(c.seed, (c.round_number + 1) as u32) } else { c.seed },
        round_number: (c.round_number + 1) as u32,
        pending_winner: Some(winner),
        revealed_winner: None,
    }
}

/// What a reveal answers for configuration `c`, and the configuration after it.
pub open spec fn revealed(c: StealthConfig) -> (Option<u32>, StealthConfig) {
    if !c.enabled {
        (None, c)
    } else if c.revealed_winner is Some {
        (c.revealed_winner, c)
    } else if c.pending_winner is Some {
        (c.pending_winner, StealthConfig { revealed_winner: c.pending_winner, ..c })
    } else {
        (None, c)
    }
}

/// Stealth-mode storage: one configuration per circle.
pub struct StealthStore {
    pub configs: BTreeMap<u64, StealthConfig>,
}

impl StealthStore {
    /// The configuration stored for `circle_id`, or the default one.
    pub open spec fn config_of(&self, circle_id: u64) -> StealthConfig {
        if self.configs@.contains_key(circle_id) { self.configs@[circle_id] } else { default_stealth_config() }
    }

    /// Empty storage.
    pub fn new() -> (r: Self)
        ensures
            r.configs@ == Map::<u64, StealthConfig>::empty(),
    {
        StealthStore { configs: BTreeMap::new() }
    }

    fn load(&self, circle_id: u64) -> (r: StealthConfig)
        ensures
            r == self.config_of(circle_id),
    {
        match self.configs.get(&circle_id) {
            Some(c) => *c,
            None => StealthConfig::default(),
        }
    }

    /// Turns stealth mode on for a new circle, seeded from `initial_seed`.
    pub fn init_stealth_mode(&mut self, circle_id: u64, initial_seed: u64)
        ensures
            final(self).configs@ == old(self).configs@.insert(circle_id, StealthConfig {
                enabled: true,
                seed: spec_derive_seed(initial_seed, 0),
                round_number: 0,
                pending_winner: None,
                revealed_winner: None,
            }),
    {
        let seed = derive_seed(initial_seed, 0);
        let config = StealthConfig { enabled: true, seed, round_number: 0, pending_winner: None, revealed_winner: None };
        self.configs.insert(circle_id, config);
    }

    /// Prepares the next round's winner among `member_count` members and
    /// keeps it hidden. Without stealth mode the order is sequential.
    pub fn prepare_next_winner(&mut self, circle_id: u64, member_count: u32) -> (r: u32)
        requires
            member_count > 0 ==> old(self).config_of(circle_id).round_number < u32::MAX,
        ensures
            member_count == 0 ==> r == 0 && final(self).configs@ == old(self).configs@,
            member_count > 0 ==> {
                let c = old(self).config_of(circle_id);
                &&& r < member_count
                &&& !c.enabled ==> r == c.round_number % member_count
                &&& c.enabled ==> r == range_draw(mt_init_state(prepared_config(c, r).seed), 624, member_count, 0).2
                &&& final(self).configs@ == old(self).configs@.insert(circle_id, prepared_config(c, r))
            },
    {
        if member_count == 0 {
            return 0;
        }
        let mut config = self.load(circle_id);
        if !config.enabled {
            let sequential = config.round_number % member_count;
            config.round_number = config.round_number + 1;
            config.pending_winner = Some(sequential);
            config.revealed_winner = None;
            self.configs.insert(circle_id, config);
            return sequential;
        }
        config.round_number = config.round_number + 1;
        config.seed = derive_seed(config.seed, config.round_number);
        let mut rng_state = mt_init(config.seed);
        let winner_index = mt_range(&mut rng_state, member_count);
        config.pending_winner = Some(winner_index);
        config.revealed_winner = None;
        self.configs.insert(circle_id, config);
        winner_index
    }

    /// Reveals the current round's winner: the already revealed one, else
    /// the pending one (which becomes revealed), else none.
    pub fn reveal_winner(&mut self, circle_id: u64) -> (r: Option<u32>)
        ensures
            r == revealed(old(self).config_of(circle_id)).0,
            old(self).config_of(circle_id).enabled && old(self).config_of(circle_id).revealed_winner is None
                && old(self).config_of(circle_id).pending_winner is Some ==> final(self).configs@
                == old(self).configs@.insert(circle_id, revealed(old(self).config_of(circle_id)).1),
            !(old(self).config_of(circle_id).enabled && old(self).config_of(circle_id).revealed_winner is None
                && old(self).config_of(circle_id).pending_winner is Some) ==> final(self).configs@
                == old(self).configs@,
    {
        let mut config = self.load(circle_id);
        if !config.enabled {
            return None;
        }
        if let Some(revealed) = config.revealed_winner {
            return Some(revealed);
        }
        if let Some(pending) = config.pending_winner {
            config.revealed_winner = Some(pending);
            self.configs.insert(circle_id, config);
            return Some(pending);
        }
        None
    }

    /// Whether stealth mode is on for the circle.
    pub fn is_stealth_enabled(&self, circle_id: u64) -> (r: bool)
        ensures
            r == self.config_of(circle_id).enabled,
    {
        self.load(circle_id).enabled
    }

    /// The circle's configuration (the default one when none is stored).
    pub fn get_stealth_config(&self, circle_id: u64) -> (r: StealthConfig)
        ensures
            r == self.config_of(circle_id),
    {
        self.load(circle_id)
    }

    /// Turns stealth mode on or off. Turning it on reseeds from `new_seed`
    /// when non-zero, else keeps a non-zero stored seed, else derives one
    /// from ledger entropy; it restarts the round count. Either way the
    /// pending and revealed winners are cleared.
    pub fn toggle_stealth_mode(
        &mut self,
        circle_id: u64,
        enabled: bool,
        new_seed: u64,
        ledger_timestamp: u64,
        ledger_sequence: u32,
        contract_addr_len: u64,
    )
        ensures
            ({
                let c = old(self).config_of(circle_id);
                final(self).configs@ == old(self).configs@.insert(circle_id, if enabled {
                    StealthConfig {
                        enabled: true,
                        seed: if new_seed > 0 {
                            spec_derive_seed(new_seed, 0)
                        } else if c.seed > 0 {
                            c.seed
                        } else {
                            spec_derive_seed(spec_random_seed(ledger_timestamp, ledger_sequence, contract_addr_len), 0)
                        },
                        round_number: 0,
                        pending_winner: None,
                        revealed_winner: None,
                    }
                } else {
                    StealthConfig { enabled: false, pending_winner: None, revealed_winner: None, ..c }
                })
            }),
    {
        let mut config = self.load(circle_id);
        config.enabled = enabled;
        if enabled {
            config.seed = if new_seed > 0 {
                derive_seed(new_seed, 0)
            } else if config.seed > 0 {
                config.seed
            } else {
                derive_seed(generate_random_seed(ledger_timestamp, ledger_sequence, contract_addr_len), 0)
            };
            config.round_number = 0;
            config.pending_winner = None;
            config.revealed_winner = None;
        } else {
            config.pending_winner = None;
            config.revealed_winner = None;
        }
        self.configs.insert(circle_id, config);
    }
}

/// What is revealed is what was prepared: on a stealth circle, the reveal
/// that follows `prepare_next_winner` answers exactly the prepared index.
pub proof fn law_reveal_returns_prepared_winner(c: StealthConfig, winner: u32)
    requires
        c.enabled,
    ensures
        revealed(prepared_config(c, winner)).0 == Some(winner),
{
}

/// Revealing twice answers the same winner: the second reveal changes nothing.
pub proof fn law_reveal_is_idempotent(c: StealthConfig)
    ensures
        revealed(revealed(c).1).0 == revealed(c).0,
        revealed(revealed(c).1).1 == revealed(c).1,
{
}

/// Without stealth mode nothing is ever revealed.
pub proof fn law_disabled_circle_reveals_nothing(c: StealthConfig)
    requires
        !c.enabled,
    ensures
        revealed(c).0 is None,
{
}

} // verus!
