//! The two accounts of the game: the global configuration and the state of one game.
use vstd::prelude::*;
use vstd::relations::injective;
use vstd::set_lib::*;

use anchor_lang::solana_program::pubkey::Pubkey;

use crate::instructions::fulfill::mine_positions_for;

pub mod game_status;

verus! {

/// Number of tiles on the board.
pub const TOTAL_TILES: u8 = 25;

/// Multiplier of a game that has revealed nothing: 1.0x in basis points.
pub const BASE_MULTIPLIER_BPS: u64 = 10000;

/// Largest multiplier a reveal can give: 100x in basis points.
pub const MAX_MULTIPLIER_BPS: u64 = 1_000_000;

/// Global configuration of the game.
#[derive(Clone, Copy)]
pub struct Config {
    /// Authority that can update the config and withdraw house funds.
    pub authority: Pubkey,
    /// House edge in basis points (500 = 5%).
    pub house_edge_bps: u16,
    /// Smallest bet.
    pub min_bet: u64,
    /// Largest bet.
    pub max_bet: u64,
    /// Fewest mines a player may choose.
    pub min_mines: u8,
    /// Most mines a player may choose.
    pub max_mines: u8,
    /// Randomness queue key.
    pub vrf_queue: Pubkey,
    /// Randomness oracle key.
    pub vrf_oracle: Pubkey,
    /// Fee wallet for randomness requests.
    pub fee_wallet: Pubkey,
    /// House vault.
    pub house_vault: Pubkey,
    /// Bump seed of the config address.
    pub bump: u8,
}

impl Config {
    /// Size of the stored account: discriminator, then the fields in order.
    pub const LEN: usize = 8 + 32 + 2 + 8 + 8 + 1 + 1 + 32 + 32 + 32 + 32 + 1;

    /// What every config that `initialize` makes and `update_config` keeps
    /// satisfies: the house edge is at most 100%, a bet is never zero, and a
    /// game has at least one and at most 24 mines.
    pub open spec fn wf(self) -> bool {
        &&& self.house_edge_bps <= 10000
        &&& self.min_bet > 0
        &&& 1 <= self.min_mines <= 24
        &&& self.max_mines <= 24
    }
}

/// State of one game.
#[derive(Clone, Copy)]
pub struct GameState {
    /// Player who started the game.
    pub player: Pubkey,
    /// Bet amount.
    pub bet_amount: u64,
    /// Number of mines the player chose.
    pub mines_count: u8,
    /// Randomness request id.
    pub vrf_request_id: Option<[u8; 32]>,
    /// Bitmap of revealed tiles, one bit per tile.
    pub revealed_tiles: u32,
    /// Current multiplier in basis points (10000 = 1.0x).
    pub current_multiplier: u64,
    /// One of the values of `game_status`.
    pub status: u8,
    /// Mine positions; the first `mines_placed` are the mines.
    pub mine_positions: [u8; 24],
    /// Number of mines placed.
    pub mines_placed: u8,
    /// When the game was created.
    pub created_at: i64,
    /// When the randomness arrived (0 before).
    pub vrf_fulfilled_at: i64,
    /// The randomness that placed the mines.
    pub vrf_randomness: Option<[u8; 32]>,
    /// Bump seed of the game address.
    pub bump: u8,
}

/// Whether bit `i` of `bits` is set.
pub open spec fn bit_set(bits: u32, i: int) -> bool {
    0 <= i < 32 && ((bits >> (i as u32)) & 1u32) == 1u32
}

/// The set bits of `bits` below `n`.
pub open spec fn bits_below(bits: u32, n: int) -> Set<int> {
    Set::new(|i: int| 0 <= i < n && bit_set(bits, i))
}

/// The tiles that a bitmap marks as revealed.
pub open spec fn bit_indices(bits: u32) -> Set<int> {
    Set::new(|i: int| bit_set(bits, i))
}

impl GameState {
    /// Size of the stored account: discriminator, then the fields in order.
    pub const LEN: usize = 8 + 32 + 8 + 1 + 1 + 32 + 4 + 8 + 1 + 24 + 1 + 8 + 8 + 1 + 32 + 1;

    /// The revealed tiles.
    pub open spec fn revealed_set(self) -> Set<int> {
        bit_indices(self.revealed_tiles)
    }

    /// Whether tile `i` is revealed.
    pub open spec fn tile_revealed(self, i: int) -> bool {
        bit_set(self.revealed_tiles, i)
    }

    /// The placed mines, in the order the shuffle chose them.
    pub open spec fn mines(self) -> Seq<u8> {
        self.mine_positions@.take(self.mines_placed as int)
    }

    /// The same game with another bitmap of revealed tiles.
    pub open spec fn with_revealed(self, bits: u32) -> GameState {
        GameState { revealed_tiles: bits, ..self }
    }

    /// The same game with another status.
    pub open spec fn with_status(self, status: u8) -> GameState {
        GameState { status: status, ..self }
    }

    /// Only tiles of the board are marked revealed, and no revealed tile is a mine.
    pub open spec fn reveals_only_safe_tiles(self) -> bool {
        &&& self.revealed_tiles < 0x200_0000
        &&& forall|i: int| #[trigger] self.tile_revealed(i) ==> !self.mines().contains(i as u8)
    }

    /// What every game that `start_game` makes and the other instructions keep
    /// satisfies.
    pub open spec fn wf(self) -> bool {
        &&& self.mines_count <= 24
        &&& self.current_multiplier <= MAX_MULTIPLIER_BPS
        &&& (self.mines_placed == 0 || self.mines_placed == self.mines_count)
        // nothing is revealed before the randomness arrives
        &&& (self.vrf_fulfilled_at <= 0 ==> self.revealed_tiles == 0)
        // a fulfilled game holds its randomness
        &&& (self.vrf_fulfilled_at > 0 ==> self.vrf_randomness is Some)
        // without randomness, no mines and no fulfillment
        &&& (self.vrf_randomness is None ==> self.mines_placed == 0 && self.vrf_fulfilled_at == 0)
        // with randomness, the stored mines are exactly those it places
        &&& (self.vrf_randomness matches Some(r) ==> {
            &&& self.mines_placed == self.mines_count
            &&& self.mines() == mine_positions_for(r@, self.mines_count as nat)
        })
        // the mines are distinct tiles of the board
        &&& self.mines().no_duplicates()
        &&& (forall|k: int| 0 <= k < self.mines_placed ==> #[trigger] self.mine_positions@[k] < 25)
        &&& self.reveals_only_safe_tiles()
    }

    /// The invariant of a game over its whole history when every fulfillment
    /// comes at a positive time: well-formed, and randomness is stored only
    /// together with a positive fulfillment time.
    pub open spec fn history_inv(self) -> bool {
        &&& self.wf()
        &&& (self.vrf_randomness is Some ==> self.vrf_fulfilled_at > 0)
    }

    /// Check if a tile is revealed.
    pub fn is_tile_revealed(&self, tile_index: u8) -> (r: bool)
        ensures
            r == (tile_index < 25 && self.tile_revealed(tile_index as int)),
    {
        if tile_index >= TOTAL_TILES {
            return false;
        }
        (self.revealed_tiles >> (tile_index as u32)) & 1u32 == 1u32
    }

    /// Mark a tile as revealed.
    pub fn reveal_tile(&mut self, tile_index: u8)
        ensures
            tile_index < 25 ==> *final(self) == old(self).with_revealed(
                old(self).revealed_tiles | (1u32 << (tile_index as u32)),
            ),
            tile_index >= 25 ==> *final(self) == *old(self),
    {
        if tile_index < TOTAL_TILES {
            self.revealed_tiles = self.revealed_tiles | (1u32 << (tile_index as u32));
        }
    }

    /// Check if a tile is a mine.
    pub fn is_mine(&self, tile_index: u8) -> (r: bool)
        requires
            self.mines_placed <= 24,
        ensures
            r == self.mines().contains(tile_index),
    {
        let n = self.mines_placed as usize;
        let mut k: usize = 0;
        while k < n
            invariant
                n == self.mines_placed,
                n <= 24,
                k <= n,
                forall|m: int| 0 <= m < k ==> self.mine_positions@[m] != tile_index,
            decreases n - k,
        {
            if self.mine_positions[k] == tile_index {
                assert(self.mines()[k as int] == tile_index);
                return true;
            }
            k = k + 1;
        }
        assert forall|m: int| 0 <= m < self.mines().len() implies self.mines()[m] != tile_index by {}
        false
    }

    /// Count number of revealed tiles.
    pub fn revealed_count(&self) -> (r: u8)
        ensures
            r == self.revealed_set().len(),
            r <= 32,
    {
        let bits = self.revealed_tiles;
        let mut count: u8 = 0;
        let mut i: u32 = 0;
        proof {
            lemma_bits_below_zero(bits);
        }
        while i < 32
            invariant
                i <= 32,
                count <= i,
                bits_below(bits, i as int).finite(),
                count == bits_below(bits, i as int).len(),
            decreases 32 - i,
        {
            proof {
                lemma_bits_below_step(bits, i as int);
            }
            if (bits >> i) & 1u32 == 1u32 {
                count = count + 1;
            }
            i = i + 1;
        }
        proof {
            assert(bits_below(bits, 32) =~= bit_indices(bits));
        }
        count
    }
}

/// No bit lies below zero.
pub proof fn lemma_bits_below_zero(bits: u32)
    ensures
        bits_below(bits, 0).finite(),
        bits_below(bits, 0).len() == 0,
{
    assert(bits_below(bits, 0) =~= Set::empty());
}

/// Going one bit further adds that bit if it is set.
pub proof fn lemma_bits_below_step(bits: u32, n: int)
    requires
        0 <= n,
        bits_below(bits, n).finite(),
    ensures
        bits_below(bits, n + 1).finite(),
        bit_set(bits, n) ==> bits_below(bits, n + 1).len() == bits_below(bits, n).len() + 1,
        !bit_set(bits, n) ==> bits_below(bits, n + 1).len() == bits_below(bits, n).len(),
{
    if bit_set(bits, n) {
        assert(bits_below(bits, n + 1) =~= bits_below(bits, n).insert(n));
    } else {
        assert(bits_below(bits, n + 1) =~= bits_below(bits, n));
    }
}

/// Setting bit `t` sets exactly that bit.
pub proof fn lemma_set_bit(bits: u32, t: u32)
    requires
        t < 32,
    ensures
        bit_indices(bits | (1u32 << t)) =~= bit_indices(bits).insert(t as int),
{
    assert forall|i: int| #[trigger] bit_set(bits | (1u32 << t), i) == (bit_set(bits, i) || i == t) by {
        if 0 <= i < 32 {
            let iu = i as u32;
            assert((((bits | (1u32 << t)) >> iu) & 1u32 == 1u32) == (((bits >> iu) & 1u32 == 1u32)
                || iu == t)) by (bit_vector)
                requires
                    t < 32,
                    iu < 32,
            ;
        }
    }
}

/// The revealed set is a finite set of tiles below 32.
pub proof fn lemma_bit_indices_finite(bits: u32)
    ensures
        bit_indices(bits).finite(),
        bit_indices(bits).subset_of(set_int_range(0, 32)),
{
    lemma_int_range(0, 32);
    assert(bit_indices(bits).subset_of(set_int_range(0, 32)));
    lemma_len_subset(bit_indices(bits), set_int_range(0, 32));
}

/// A bitmap below 2^25 marks only tiles of the board.
pub proof fn lemma_bits_on_board(bits: u32, i: int)
    requires
        bits < 0x200_0000,
        bit_set(bits, i),
    ensures
        0 <= i < 25,
{
    if i >= 25 {
        let iu = i as u32;
        assert(((bits >> iu) & 1u32) == 0u32) by (bit_vector)
            requires
                bits < 0x200_0000,
                25 <= iu < 32,
        ;
    }
}

/// A set of tiles of the board that holds no mine fits beside the mines: with
/// the mines placed, it has at most `25 - mines_count` tiles.
pub proof fn lemma_safe_set_fits(g: GameState, s: Set<int>)
    requires
        g.wf(),
        g.vrf_fulfilled_at > 0,
        forall|i: int| #[trigger] s.contains(i) ==> 0 <= i < 25 && !g.mines().contains(i as u8),
    ensures
        s.finite(),
        s.len() + g.mines_count <= 25,
{
    let f = |x: u8| x as int;
    let ms = g.mines().map_values(f);
    let m = ms.to_set();
    let range = set_int_range(0, 25);
    assert(injective(f));
    g.mines().lemma_no_duplicates_injective(f);
    ms.unique_seq_to_set();
    lemma_int_range(0, 25);
    assert(s.subset_of(range));
    assert forall|i: int| m.contains(i) implies range.contains(i) by {
        assert(ms.contains(i));
        let k = choose|k: int| 0 <= k < ms.len() && ms[k] == i;
        assert(g.mine_positions@[k] < 25);
    }
    lemma_len_subset(s, range);
    lemma_len_subset(m, range);
    assert forall|i: int| s.contains(i) implies !m.contains(i) by {
        if m.contains(i) {
            assert(ms.contains(i));
            let k = choose|k: int| 0 <= k < ms.len() && ms[k] == i;
            assert(g.mines()[k] as int == i);
            assert(g.mines().contains(i as u8));
        }
    }
    assert(s.disjoint(m));
    lemma_set_disjoint_lens(s, m);
    assert((s + m).subset_of(range));
    lemma_len_subset(s + m, range);
}

} // verus!
