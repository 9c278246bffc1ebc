//! The wall of three-player mahjong (108 tiles: 2m to 8m are left out).

use vstd::prelude::*;

use rand::rngs::{OsRng, StdRng};
use rand::seq::SliceRandom;
use rand::{RngCore, SeedableRng};
use sha2::{Digest, Sha256};

use crate::errors::RiichiError;
use crate::text::string_from_chars;
use crate::types::{is_sanma_excluded_tile, spec_is_sanma_excluded_tile};

verus! {

broadcast use vstd::seq_lib::group_to_multiset_ensures;

/// What the standard generator seeded with `seed` makes of `tiles`: the order
/// that `SliceRandom::shuffle` leaves them in, and the generator's next `u64`
/// after that shuffle.
pub uninterp spec fn seeded_shuffle_spec(seed: u64, tiles: Seq<u8>) -> (Seq<u8>, u64);

/// Seeds `rand`'s standard generator with `SeedableRng::seed_from_u64`,
/// shuffles the tiles with `SliceRandom::shuffle` and draws `RngCore::next_u64`.
/// Within one build of `rand` (0.8, whose `StdRng` is ChaCha12) the seeded
/// generator is a fixed function of its seed, so the outcome is named as a
/// function of the seed and the tiles; `rand` does not promise that `StdRng`
/// gives the same output across its versions, so the name holds for the
/// version this crate is built with. The shuffle keeps the tiles' multiset.
#[verifier::external_body]
fn seeded_shuffle(seed: u64, tiles: &mut Vec<u8>) -> (salt: u64)
    ensures
        (final(tiles)@, salt) == seeded_shuffle_spec(seed, old(tiles)@),
        final(tiles)@.to_multiset() == old(tiles)@.to_multiset(),
{
    let mut rng = StdRng::seed_from_u64(seed);
    tiles.shuffle(&mut rng);
    rng.next_u64()
}

/// Seeds the standard generator from the operating system with
/// `SeedableRng::from_rng(OsRng)` (which returns an error, rather than
/// panicking, where no entropy can be had), then shuffles the tiles with
/// `SliceRandom::shuffle` and draws `RngCore::next_u64`. With no entropy it
/// returns `None` and leaves the tiles alone; otherwise the tiles come out as a
/// permutation of those that went in. Which permutation, and which number, is
/// left unsaid: both rest on the operating system's randomness.
#[verifier::external_body]
fn entropy_shuffle(tiles: &mut Vec<u8>) -> (salt: Option<u64>)
    ensures
        final(tiles)@.to_multiset() == old(tiles)@.to_multiset(),
        salt is None ==> final(tiles)@ == old(tiles)@,
{
    let mut rng = StdRng::from_rng(OsRng).ok()?;
    tiles.shuffle(&mut rng);
    Some(rng.next_u64())
}

/// The SHA-256 digest of a byte string.
pub uninterp spec fn sha256_spec(data: Seq<u8>) -> Seq<u8>;

/// SHA-256 of `data`, with `sha2::Sha256::digest`: the digest of the bytes,
/// 32 bytes long.
#[verifier::external_body]
fn sha256_digest(data: &[u8]) -> (r: Vec<u8>)
    ensures
        r@ == sha256_spec(data@),
        r@.len() == 32,
{
    Sha256::digest(data).to_vec()
}

// ── Hex text ─────────────────────────────────────────────────────────────────

/// Lower-case hex digit of a value 0..15.
pub open spec fn hex_digit(n: int) -> char {
    if n < 10 {
        ((48 + n) as u32) as char
    } else {
        ((87 + n) as u32) as char
    }
}

/// The `n` lowest hex digits of `x`, most significant first (zero padded).
pub open spec fn hex_fixed(x: nat, n: nat) -> Seq<char>
    decreases n,
{
    if n == 0 {
        seq![]
    } else {
        hex_fixed(x / 16, (n - 1) as nat).push(hex_digit((x % 16) as int))
    }
}

/// Lower-case hex of a byte string, two digits per byte.
pub open spec fn hex_bytes(b: Seq<u8>) -> Seq<char>
    decreases b.len(),
{
    if b.len() == 0 {
        seq![]
    } else {
        hex_bytes(b.drop_last()).push(hex_digit((b.last() / 16) as int)).push(hex_digit((b.last() % 16) as int))
    }
}

/// The bytes of a string of ASCII characters.
pub open spec fn ascii_bytes(s: Seq<char>) -> Seq<u8> {
    s.map_values(|c: char| (c as u32) as u8)
}

fn hex_digit_exec(n: u8) -> (r: (char, u8))
    requires
        n < 16,
    ensures
        r.0 == hex_digit(n as int),
        r.1 == (r.0 as u32) as u8,
{
    if n < 10 {
        let b: u8 = 48 + n;
        (b as char, b)
    } else {
        let b: u8 = 87 + n;
        (b as char, b)
    }
}

/// The `n` lowest hex digits of `x` (as `format!("{:016x}")` writes them for
/// `n` = 16), and their bytes.
fn hex_fixed_exec(x: u64, n: usize) -> (r: (Vec<char>, Vec<u8>))
    ensures
        r.0@ == hex_fixed(x as nat, n as nat),
        r.1@ == ascii_bytes(r.0@),
    decreases n,
{
    if n == 0 {
        let d: Vec<char> = Vec::new();
        let b: Vec<u8> = Vec::new();
        assert(ascii_bytes(d@) =~= b@);
        (d, b)
    } else {
        let (mut d, mut b) = hex_fixed_exec(x / 16, n - 1);
        let (c, cb) = hex_digit_exec((x % 16) as u8);
        let ghost d0 = d@;
        d.push(c);
        b.push(cb);
        assert(ascii_bytes(d@) =~= ascii_bytes(d0).push(cb));
        (d, b)
    }
}

/// Lower-case hex of `data` (as `format!("{:x}")` writes a digest).
fn hex_of_bytes(data: &Vec<u8>) -> (r: Vec<char>)
    ensures
        r@ == hex_bytes(data@),
{
    let mut out: Vec<char> = Vec::new();
    let mut i: usize = 0;
    while i < data.len()
        invariant
            0 <= i <= data@.len(),
            out@ == hex_bytes(data@.take(i as int)),
        decreases data@.len() - i,
    {
        assert(data@.take(i + 1).drop_last() =~= data@.take(i as int));
        let byte = data[i];
        let (hi, _) = hex_digit_exec(byte / 16);
        let (lo, _) = hex_digit_exec(byte % 16);
        out.push(hi);
        out.push(lo);
        i = i + 1;
    }
    assert(data@.take(i as int) =~= data@);
    out
}


// ── Seeds ────────────────────────────────────────────────────────────────────

/// The SplitMix64 finaliser.
pub open spec fn spec_splitmix64(x: u64) -> u64 {
    let z0 = x.wrapping_add(0x9E3779B97F4A7C15u64);
    let z1 = (z0 ^ (z0 >> 30u64)).wrapping_mul(0xBF58476D1CE4E5B9u64);
    let z2 = (z1 ^ (z1 >> 27u64)).wrapping_mul(0x94D049BB133111EBu64);
    z2 ^ (z2 >> 31u64)
}

/// The seed of one hand: SplitMix64 of the episode seed plus the hand index
/// (wrapping).
pub open spec fn hand_seed(seed: u64, hand_index: u64) -> u64 {
    spec_splitmix64(seed.wrapping_add(hand_index))
}

/// SplitMix64: turns an episode seed and hand index into the seed of one hand.
pub fn splitmix64(x: u64) -> (r: u64)
    ensures
        r == spec_splitmix64(x),
{
    let mut z = x.wrapping_add(0x9E3779B97F4A7C15);
    z = (z ^ (z >> 30)).wrapping_mul(0xBF58476D1CE4E5B9);
    z = (z ^ (z >> 27)).wrapping_mul(0x94D049BB133111EB);
    z ^ (z >> 31)
}

// ── The wall ─────────────────────────────────────────────────────────────────

/// The tiles below `n` that three-player mahjong plays with, in increasing order.
pub open spec fn sanma_tiles(n: nat) -> Seq<u8>
    decreases n,
{
    if n == 0 {
        seq![]
    } else {
        let prev = sanma_tiles((n - 1) as nat);
        if spec_is_sanma_excluded_tile((n - 1) as u8) {
            prev
        } else {
            prev.push((n - 1) as u8)
        }
    }
}

/// The full three-player tile set, ids 0..135 without 2m to 8m.
pub open spec fn sanma_wall() -> Seq<u8> {
    sanma_tiles(136)
}

proof fn lemma_sanma_tiles_len(n: nat)
    requires
        n <= 136,
    ensures
        n <= 4 ==> sanma_tiles(n).len() == n,
        4 <= n <= 32 ==> sanma_tiles(n).len() == 4,
        32 <= n ==> sanma_tiles(n).len() == n - 28,
    decreases n,
{
    if n > 0 {
        lemma_sanma_tiles_len((n - 1) as nat);
    }
}

/// Wall state for 3-player mahjong (108 tiles, sanma hardcoded).
pub struct WallState3P {
    pub tiles: Vec<u8>,
    pub dora_indicators: Vec<u8>,
    /// Pre-extracted dora indicator tiles (omote) in order D1..D5.
    pub dora_indicator_tiles: [u8; 5],
    /// Pre-extracted ura dora indicator tiles in order U1..U5.
    pub ura_indicator_tiles: [u8; 5],
    pub rinshan_draw_count: u8,
    pub pending_kan_dora_count: u8,
    pub wall_digest: String,
    pub salt: String,
    pub seed: Option<u64>,
    pub hand_index: u64,
}

/// A wall whose tiles are `tiles`, with its first dora indicator revealed and
/// the kan counters reset; the pre-extracted indicators are given.
pub open spec fn dealt_wall(w: WallState3P, tiles: Seq<u8>, dora: Seq<u8>, ura: Seq<u8>) -> bool {
    &&& w.tiles@ == tiles
    &&& w.dora_indicator_tiles@ == dora
    &&& w.ura_indicator_tiles@ == ura
    &&& w.dora_indicators@ == seq![dora[0]]
    &&& w.rinshan_draw_count == 0
    &&& w.pending_kan_dora_count == 0
}

fn reverse_tiles(v: &Vec<u8>) -> (r: Vec<u8>)
    ensures
        r@ == v@.reverse(),
{
    let mut r: Vec<u8> = Vec::new();
    let mut i: usize = v.len();
    while i > 0
        invariant
            0 <= i <= v@.len(),
            r@.len() == v@.len() - i,
            forall|j: int| 0 <= j < r@.len() ==> r@[j] == v@[v@.len() - 1 - j],
        decreases i,
    {
        r.push(v[i - 1]);
        i = i - 1;
    }
    assert(r@ =~= v@.reverse());
    r
}

impl WallState3P {
    /// An empty wall that will shuffle with `seed` (or with fresh entropy where there is none).
    pub fn new(seed: Option<u64>) -> (w: Self)
        ensures
            w.tiles@.len() == 0,
            w.dora_indicators@.len() == 0,
            w.dora_indicator_tiles@ == seq![0u8, 0, 0, 0, 0],
            w.ura_indicator_tiles@ == seq![0u8, 0, 0, 0, 0],
            w.rinshan_draw_count == 0,
            w.pending_kan_dora_count == 0,
            w.wall_digest@.len() == 0,
            w.salt@.len() == 0,
            w.seed == seed,
            w.hand_index == 0,
    {
        let w = WallState3P {
            tiles: Vec::new(),
            dora_indicators: Vec::new(),
            dora_indicator_tiles: [0u8; 5],
            ura_indicator_tiles: [0u8; 5],
            rinshan_draw_count: 0,
            pending_kan_dora_count: 0,
            wall_digest: String::new(),
            salt: String::new(),
            seed,
            hand_index: 0,
        };
        assert(w.dora_indicator_tiles@ =~= seq![0u8, 0, 0, 0, 0]);
        assert(w.ura_indicator_tiles@ =~= seq![0u8, 0, 0, 0, 0]);
        w
    }

    /// Shuffles a fresh 108-tile wall and deals it: the tiles are a permutation
    /// of the three-player set, stored reversed after hashing; the salt is 16 hex
    /// digits of the generator's next output; the digest is the lower-case hex
    /// SHA-256 of the salt's bytes followed by the tiles in shuffled order; the
    /// dora and ura indicators are the tiles at 4, 6, .. 12 and 5, 7, .. 13; the
    /// hand index moves on by one.
    ///
    /// With a seed, the generator is seeded with SplitMix64 of seed + hand index,
    /// so the wall and salt are those of [`seeded_shuffle_spec`] for that hand
    /// seed: the same seed and hand index always deal the same wall. Without a
    /// seed the generator takes entropy from the operating system; where it
    /// has none, the wall is left as it was and an error is returned.
    pub fn shuffle(&mut self) -> (r: Result<(), RiichiError>)
        ensures
            old(self).seed is Some ==> r is Ok,
            r is Err ==> *final(self) == *old(self),
            r is Ok ==> {
                &&& final(self).tiles@.to_multiset() == sanma_wall().to_multiset()
                &&& final(self).tiles@.len() == 108
                &&& final(self).seed == old(self).seed
                &&& final(self).hand_index == old(self).hand_index.wrapping_add(1)
                &&& dealt_wall(
                    *final(self),
                    final(self).tiles@,
                    Seq::new(5, |i: int| final(self).tiles@[4 + 2 * i]),
                    Seq::new(5, |i: int| final(self).tiles@[5 + 2 * i]),
                )
                &&& exists|x: u64| final(self).salt@ == hex_fixed(x as nat, 16)
                &&& final(self).wall_digest@ == hex_bytes(
                    sha256_spec(ascii_bytes(final(self).salt@) + final(self).tiles@.reverse()),
                )
            },
            forall|s: u64|
                old(self).seed == Some(s) ==> {
                    let dealt = seeded_shuffle_spec(hand_seed(s, old(self).hand_index), sanma_wall());
                    &&& final(self).tiles@ == dealt.0.reverse()
                    &&& final(self).salt@ == hex_fixed(dealt.1 as nat, 16)
                },
    {
        // 3P: 108 tiles (no 2m-8m)
        let mut w: Vec<u8> = Vec::new();
        let mut t: u8 = 0;
        while t < 136
            invariant
                0 <= t <= 136,
                w@ == sanma_tiles(t as nat),
            decreases 136 - t,
        {
            if !is_sanma_excluded_tile(t) {
                w.push(t);
            }
            t = t + 1;
        }
        proof {
            lemma_sanma_tiles_len(136);
        }
        let ghost unshuffled = w@;

        let salt_value: u64 = match self.seed {
            Some(episode_seed) => {
                let seed = splitmix64(episode_seed.wrapping_add(self.hand_index));
                seeded_shuffle(seed, &mut w)
            },
            None => match entropy_shuffle(&mut w) {
                Some(v) => v,
                None => {
                    return Err(
                        RiichiError::new(
                            String::from_str("no entropy from the operating system to shuffle the wall"),
                        ),
                    );
                },
            },
        };
        self.hand_index = self.hand_index.wrapping_add(1);
        assert(w@.to_multiset().len() == w@.len());
        assert(unshuffled.to_multiset().len() == unshuffled.len());
        assert(w@.len() == 108);
        let (salt_chars, salt_bytes) = hex_fixed_exec(salt_value, 16);
        self.salt = string_from_chars(&salt_chars);

        // Digest of the salt followed by the shuffled tiles.
        let mut data = salt_bytes;
        let mut i: usize = 0;
        while i < w.len()
            invariant
                0 <= i <= w@.len(),
                data@ == ascii_bytes(salt_chars@) + w@.take(i as int),
            decreases w@.len() - i,
        {
            assert(w@.take(i + 1) =~= w@.take(i as int).push(w@[i as int]));
            data.push(w[i]);
            i = i + 1;
        }
        assert(w@.take(i as int) =~= w@);
        let digest = sha256_digest(data.as_slice());
        let hex = hex_of_bytes(&digest);
        self.wall_digest = string_from_chars(&hex);

        let rev = reverse_tiles(&w);
        assert(rev@.reverse() =~= w@);
        proof {
            w@.lemma_reverse_to_multiset();
            assert(unshuffled == sanma_wall());
            assert(rev@.to_multiset() == sanma_wall().to_multiset());
        }
        self.tiles = rev;

        // Pre-extract dora/ura indicators from standard layout.
        // After reversal: D_i omote at tiles[4+2i], ura at tiles[5+2i].
        let ghost before = *self;
        let mut k: usize = 0;
        while k < 5
            invariant
                0 <= k <= 5,
                self.tiles@.len() == 108,
                self.tiles@ == before.tiles@,
                self.seed == before.seed,
                self.hand_index == before.hand_index,
                self.salt@ == before.salt@,
                self.wall_digest@ == before.wall_digest@,
                forall|j: int| 0 <= j < k ==> self.dora_indicator_tiles@[j] == self.tiles@[4 + 2 * j],
                forall|j: int| 0 <= j < k ==> self.ura_indicator_tiles@[j] == self.tiles@[5 + 2 * j],
            decreases 5 - k,
        {
            self.dora_indicator_tiles[k] = self.tiles[4 + 2 * k];
            self.ura_indicator_tiles[k] = self.tiles[5 + 2 * k];
            k = k + 1;
        }
        assert(self.dora_indicator_tiles@ =~= Seq::new(5, |i: int| self.tiles@[4 + 2 * i]));
        assert(self.ura_indicator_tiles@ =~= Seq::new(5, |i: int| self.tiles@[5 + 2 * i]));

        self.dora_indicators.clear();
        self.dora_indicators.push(self.dora_indicator_tiles[0]);
        self.rinshan_draw_count = 0;
        self.pending_kan_dora_count = 0;
        Ok(())
    }
}


impl WallState3P {
    /// Loads a wall in the MjSoul three-player layout and deals it reversed.
    /// For a full 108-tile wall the dora indicators are read from positions
    /// 99, 97, 95, 93, 91 and the ura indicators from 98, 96, 94, 92, 90 (before
    /// the reversal); for another length the indicators kept from before stay.
    pub fn load_wall(&mut self, tiles: Vec<u8>)
        ensures
            ({
                let dora = if tiles@.len() == 108 {
                    seq![tiles@[99], tiles@[97], tiles@[95], tiles@[93], tiles@[91]]
                } else {
                    old(self).dora_indicator_tiles@
                };
                let ura = if tiles@.len() == 108 {
                    seq![tiles@[98], tiles@[96], tiles@[94], tiles@[92], tiles@[90]]
                } else {
                    old(self).ura_indicator_tiles@
                };
                dealt_wall(*final(self), tiles@.reverse(), dora, ura)
            }),
            final(self).seed == old(self).seed,
            final(self).hand_index == old(self).hand_index,
            final(self).salt@ == old(self).salt@,
            final(self).wall_digest@ == old(self).wall_digest@,
    {
        if tiles.len() == 108 {
            self.dora_indicator_tiles = [tiles[99], tiles[97], tiles[95], tiles[93], tiles[91]];
            self.ura_indicator_tiles = [tiles[98], tiles[96], tiles[94], tiles[92], tiles[90]];
            assert(self.dora_indicator_tiles@ =~= seq![
                tiles@[99],
                tiles@[97],
                tiles@[95],
                tiles@[93],
                tiles@[91],
            ]);
            assert(self.ura_indicator_tiles@ =~= seq![
                tiles@[98],
                tiles@[96],
                tiles@[94],
                tiles@[92],
                tiles@[90],
            ]);
        }
        self.tiles = reverse_tiles(&tiles);
        self.dora_indicators.clear();
        self.dora_indicators.push(self.dora_indicator_tiles[0]);
        self.rinshan_draw_count = 0;
        self.pending_kan_dora_count = 0;
    }
}

} // verus!
