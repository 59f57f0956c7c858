//! Placing the mines from the randomness of the oracle.
use vstd::prelude::*;
use vstd::arithmetic::div_mod::*;

use anchor_lang::solana_program::pubkey::Pubkey;

use crate::error::MinesError;
use crate::state::game_status;
use crate::state::{bit_set, GameState};

verus! {

/// Multiplier of the generator that drives the shuffle.
pub const LCG_MULTIPLIER: u64 = 1103515245;

/// Increment of the generator that drives the shuffle.
pub const LCG_INCREMENT: u64 = 12345;

/// Little-endian value of a byte string.
pub open spec fn le_value(bytes: Seq<u8>) -> nat
    decreases bytes.len(),
{
    if bytes.len() == 0 {
        0
    } else {
        (bytes[0] as nat + 256 * le_value(bytes.drop_first())) as nat
    }
}

/// The seed of the shuffle: the first eight bytes of the randomness, little-endian.
pub open spec fn vrf_seed(randomness: Seq<u8>) -> u64 {
    le_value(randomness.take(8)) as u64
}

/// One step of the generator: `seed * 1103515245 + 12345` modulo 2^64.
pub open spec fn lcg_next(seed: u64) -> u64 {
    ((seed as nat * LCG_MULTIPLIER as nat + LCG_INCREMENT as nat) % 0x1_0000_0000_0000_0000nat) as u64
}

/// The generator's state after `n` steps from `seed`.
pub open spec fn lcg_seed(seed: u64, n: nat) -> u64
    decreases n,
{
    if n == 0 {
        seed
    } else {
        lcg_next(lcg_seed(seed, (n - 1) as nat))
    }
}

/// The tiles of the board in order.
pub open spec fn board_tiles() -> Seq<u8> {
    Seq::new(25, |k: int| k as u8)
}

/// Position `i` of the shuffle swaps with: `i` plus the state modulo the tiles left.
pub open spec fn swap_partner(i: int, seed: u64) -> int {
    i + (seed as usize) as int % (25 - i)
}

/// `s` with the elements at `i` and `j` exchanged.
pub open spec fn swap_at(s: Seq<u8>, i: int, j: int) -> Seq<u8> {
    s.update(i, s[j]).update(j, s[i])
}

/// The board after the first `n` steps of the Fisher-Yates shuffle seeded with `seed`.
pub open spec fn shuffled(seed: u64, n: nat) -> Seq<u8>
    decreases n,
{
    if n == 0 {
        board_tiles()
    } else {
        let i = n - 1;
        swap_at(shuffled(seed, (n - 1) as nat), i, swap_partner(i, lcg_seed(seed, n)))
    }
}

/// The mines that `randomness` places when the player chose `count` mines.
pub open spec fn mine_positions_for(randomness: Seq<u8>, count: nat) -> Seq<u8> {
    shuffled(vrf_seed(randomness), count).take(count as int)
}

/// Whether `s` is an arrangement of the 25 tiles of the board.
pub open spec fn is_board_permutation(s: Seq<u8>) -> bool {
    &&& s.len() == 25
    &&& s.no_duplicates()
    &&& forall|k: int| 0 <= k < 25 ==> #[trigger] s[k] < 25
}

/// Every prefix of the shuffle is an arrangement of the board's tiles.
pub proof fn lemma_shuffled_permutation(seed: u64, n: nat)
    requires
        n <= 25,
    ensures
        is_board_permutation(shuffled(seed, n)),
    decreases n,
{
    if n == 0 {
        assert(board_tiles()[0] == 0);
    } else {
        lemma_shuffled_permutation(seed, (n - 1) as nat);
        let s = shuffled(seed, (n - 1) as nat);
        let i = n - 1;
        let j = swap_partner(i, lcg_seed(seed, n));
        assert(i <= j < 25);
        let t = swap_at(s, i, j);
        assert(t == shuffled(seed, n));
        assert forall|a: int, b: int| 0 <= a < t.len() && 0 <= b < t.len() && a != b implies t[a]
            != t[b] by {
            let pa = if a == i { j } else if a == j { i } else { a };
            let pb = if b == i { j } else if b == j { i } else { b };
            assert(t[a] == s[pa]);
            assert(t[b] == s[pb]);
        }
    }
}

/// The mines that the randomness places are `count` distinct tiles of the board.
pub proof fn lemma_mine_positions_valid(randomness: Seq<u8>, count: nat)
    requires
        count <= 25,
    ensures
        mine_positions_for(randomness, count).len() == count,
        mine_positions_for(randomness, count).no_duplicates(),
        forall|k: int|
            0 <= k < count ==> #[trigger] mine_positions_for(randomness, count)[k] < 25,
{
    lemma_shuffled_permutation(vrf_seed(randomness), count);
    let s = shuffled(vrf_seed(randomness), count);
    let m = mine_positions_for(randomness, count);
    assert forall|a: int, b: int| 0 <= a < m.len() && 0 <= b < m.len() && a != b implies m[a]
        != m[b] by {
        assert(m[a] == s[a]);
        assert(m[b] == s[b]);
    }
}

/// Later steps of the shuffle never move the first `k` positions.
pub proof fn lemma_shuffled_prefix_stable(seed: u64, k: nat, m: nat)
    requires
        k <= m <= 25,
    ensures
        shuffled(seed, m).take(k as int) == shuffled(seed, k).take(k as int),
    decreases m,
{
    if m > k {
        lemma_shuffled_prefix_stable(seed, k, (m - 1) as nat);
        lemma_shuffled_permutation(seed, (m - 1) as nat);
        let s = shuffled(seed, (m - 1) as nat);
        let i = m - 1;
        let j = swap_partner(i, lcg_seed(seed, m));
        assert(shuffled(seed, m).take(k as int) =~= s.take(k as int));
    }
}

/// The generator step with wrapping arithmetic.
fn lcg_step(seed: u64) -> (r: u64)
    ensures
        r == lcg_next(seed),
{
    let m = seed.wrapping_mul(LCG_MULTIPLIER);
    let r = m.wrapping_add(LCG_INCREMENT);
    proof {
        let big = 0x1_0000_0000_0000_0000int;
        let p = seed as int * LCG_MULTIPLIER as int;
        assert(m as int == p % big);
        lemma_add_mod_noop(p, LCG_INCREMENT as int, big);
        lemma_small_mod(LCG_INCREMENT as nat, big as nat);
        lemma_small_mod(m as nat, big as nat);
        if m as int + LCG_INCREMENT as int > u64::MAX as int {
            let d = m as int + LCG_INCREMENT as int - big;
            lemma_mod_add_multiples_vanish(d, big);
            lemma_small_mod(d as nat, big as nat);
        } else {
            lemma_small_mod((m as int + LCG_INCREMENT as int) as nat, big as nat);
        }
    }
    r
}

/// The seed of the shuffle: the first eight bytes of `randomness`, little-endian.
pub fn seed_from_randomness(randomness: &[u8; 32]) -> (r: u64)
    ensures
        r == vrf_seed(randomness@),
{
    let mut acc: u64 = 0;
    let mut k: usize = 8;
    while k > 0
        invariant
            k <= 8,
            randomness@.len() == 32,
            acc as nat == le_value(randomness@.subrange(k as int, 8)),
            acc < pow256((8 - k) as nat),
        decreases k,
    {
        k = k - 1;
        proof {
            let tail = randomness@.subrange(k as int, 8);
            assert(tail.drop_first() =~= randomness@.subrange(k + 1, 8));
            assert(tail[0] == randomness@[k as int]);
            lemma_pow256_step((8 - (k + 1)) as nat);
            assert(acc * 256 + randomness@[k as int] < pow256((8 - k) as nat)) by (nonlinear_arith)
                requires
                    acc < pow256((8 - (k + 1)) as nat),
                    pow256((8 - k) as nat) == 256 * pow256((8 - (k + 1)) as nat),
                    randomness@[k as int] < 256,
            ;
            lemma_pow256_bound((8 - k) as nat);
        }
        acc = acc * 256 + randomness[k] as u64;
    }
    proof {
        assert(randomness@.subrange(0, 8) =~= randomness@.take(8));
    }
    acc
}

/// `256^n`.
pub open spec fn pow256(n: nat) -> nat
    decreases n,
{
    if n == 0 {
        1
    } else {
        256 * pow256((n - 1) as nat)
    }
}

proof fn lemma_pow256_step(n: nat)
    ensures
        pow256(n + 1) == 256 * pow256(n),
{
}

proof fn lemma_pow256_bound(n: nat)
    requires
        n <= 8,
    ensures
        pow256(n) <= 0x1_0000_0000_0000_0000nat,
    decreases n,
{
    reveal_with_fuel(pow256, 9);
    if n > 0 {
        lemma_pow256_bound((n - 1) as nat);
    }
}

/// Generate mine positions deterministically from the randomness: the first
/// `count` tiles of a Fisher-Yates shuffle of the board, driven by a linear
/// congruential generator seeded with the first eight bytes of `randomness`.
pub fn generate_mine_positions(randomness: [u8; 32], count: u8) -> (r: Vec<u8>)
    requires
        count <= 25,
    ensures
        r@ == mine_positions_for(randomness@, count as nat),
        r@.len() == count,
        r@.no_duplicates(),
        forall|k: int| 0 <= k < count ==> #[trigger] r@[k] < 25,
{
    let mut positions: Vec<u8> = Vec::new();
    let mut t: u8 = 0;
    while t < 25
        invariant
            t <= 25,
            positions@ =~= board_tiles().take(t as int),
        decreases 25 - t,
    {
        positions.push(t);
        t = t + 1;
    }
    let ghost seed0 = vrf_seed(randomness@);
    let mut seed = seed_from_randomness(&randomness);
    let n = count as usize;
    let mut i: usize = 0;
    while i < n
        invariant
            n == count,
            n <= 25,
            i <= n,
            seed == lcg_seed(seed0, i as nat),
            positions@ == shuffled(seed0, i as nat),
        decreases n - i,
    {
        proof {
            lemma_shuffled_permutation(seed0, i as nat);
        }
        seed = lcg_step(seed);
        let j = i + (seed as usize % (25 - i));
        let a = positions[i];
        let b = positions[j];
        positions.set(i, b);
        positions.set(j, a);
        i = i + 1;
        proof {
            assert(positions@ =~= shuffled(seed0, i as nat));
        }
    }
    let mut result: Vec<u8> = Vec::new();
    proof {
        lemma_shuffled_permutation(seed0, n as nat);
    }
    let mut k: usize = 0;
    while k < n
        invariant
            n == count,
            n <= 25,
            k <= n,
            positions@ == shuffled(seed0, n as nat),
            positions@.len() == 25,
            result@ =~= positions@.take(k as int),
        decreases n - k,
    {
        result.push(positions[k]);
        k = k + 1;
    }
    proof {
        lemma_mine_positions_valid(randomness@, count as nat);
    }
    result
}

/// What `fulfill` reads besides the game: the game account's key and the clock.
#[derive(Clone, Copy)]
pub struct Fulfill {
    /// Key of the game account.
    pub game_state_key: Pubkey,
    /// Unix time of the clock.
    pub now: i64,
}

/// Event of a fulfilled randomness request.
#[derive(Clone, Copy)]
pub struct VrfFulfilled {
    pub game_state: Pubkey,
    pub vrf_randomness: [u8; 32],
    pub mines_count: u8,
}

/// Why `fulfill` refuses a game, if it does.
pub open spec fn fulfill_error(game: GameState) -> Option<MinesError> {
    if game.status != game_status::ACTIVE {
        Some(MinesError::GameEnded)
    } else if game.vrf_fulfilled_at != 0 {
        Some(MinesError::VrfAlreadyFulfilled)
    } else {
        None
    }
}

/// `post` is `pre` after the randomness placed its mines at time `now`: the
/// first mines (at most 24) are stored, the rest of the array is kept.
pub open spec fn fulfilled(post: GameState, pre: GameState, randomness: [u8; 32], now: i64) -> bool {
    let mines = mine_positions_for(randomness@, pre.mines_count as nat);
    &&& post == (GameState {
        vrf_randomness: Some(randomness),
        vrf_fulfilled_at: now,
        mines_placed: pre.mines_count,
        mine_positions: post.mine_positions,
        ..pre
    })
    &&& forall|k: int|
        0 <= k < 24 ==> #[trigger] post.mine_positions@[k] == if k < mines.len() {
            mines[k]
        } else {
            pre.mine_positions@[k]
        }
}

/// Fulfill the randomness request and place the mines deterministically.
pub fn fulfill(ctx: &Fulfill, game_state: &mut GameState, vrf_randomness: [u8; 32]) -> (r: Result<
    VrfFulfilled,
    MinesError,
>)
    requires
        fulfill_error(*old(game_state)) is None ==> old(game_state).mines_count <= 25,
    ensures
        match fulfill_error(*old(game_state)) {
            Some(e) => r == Err::<VrfFulfilled, MinesError>(e) && *final(game_state) == *old(
                game_state,
            ),
            None => {
                &&& r == Ok::<VrfFulfilled, MinesError>(
                    VrfFulfilled {
                        game_state: ctx.game_state_key,
                        vrf_randomness,
                        mines_count: old(game_state).mines_count,
                    },
                )
                &&& fulfilled(*final(game_state), *old(game_state), vrf_randomness, ctx.now)
            },
        },
        old(game_state).wf() ==> final(game_state).wf(),
{
    if game_state.status != game_status::ACTIVE {
        return Err(MinesError::GameEnded);
    }
    if game_state.vrf_fulfilled_at != 0 {
        return Err(MinesError::VrfAlreadyFulfilled);
    }
    let ghost pre = *game_state;
    let mut g = *game_state;
    g.vrf_randomness = Some(vrf_randomness);
    g.vrf_fulfilled_at = ctx.now;
    let mines = generate_mine_positions(vrf_randomness, g.mines_count);
    let mut i: usize = 0;
    while i < mines.len()
        invariant
            mines@ == mine_positions_for(vrf_randomness@, pre.mines_count as nat),
            i <= mines@.len(),
            g == (GameState {
                vrf_randomness: Some(vrf_randomness),
                vrf_fulfilled_at: ctx.now,
                mine_positions: g.mine_positions,
                ..pre
            }),
            forall|k: int|
                0 <= k < 24 ==> #[trigger] g.mine_positions@[k] == if k < i {
                    mines@[k]
                } else {
                    pre.mine_positions@[k]
                },
        decreases mines@.len() - i,
    {
        if i < 24 {
            g.mine_positions[i] = mines[i];
        }
        i = i + 1;
    }
    g.mines_placed = g.mines_count;
    proof {
        if pre.wf() {
            assert(pre.revealed_tiles == 0);
            assert(g.mines() =~= mines@);
            assert forall|t: int| #[trigger] g.tile_revealed(t) implies !g.mines().contains(
                t as u8,
            ) by {
                lemma_no_bit_of_zero(t);
            }
        }
    }
    *game_state = g;
    Ok(VrfFulfilled { game_state: ctx.game_state_key, vrf_randomness, mines_count: g.mines_count })
}

/// An empty bitmap marks no tile.
pub proof fn lemma_no_bit_of_zero(t: int)
    ensures
        !bit_set(0u32, t),
{
    if 0 <= t < 32 {
        let tu = t as u32;
        assert((0u32 >> tu) & 1u32 == 0u32) by (bit_vector);
    }
}

} // verus!
