use vstd::prelude::*;
use rand::Rng;
use crate::letter::is_letter;

verus! {

/// Leftmost pixel column at which a letter may appear.
pub const SPAWN_X_MIN: u32 = 600;

/// One past the rightmost pixel column at which a letter may appear.
pub const SPAWN_X_END: u32 = 1030;

/// Fewest letters in one burst.
pub const BURST_MIN: u32 = 1;

/// One more than the most letters in one burst.
pub const BURST_END: u32 = 4;

/// Where and which letter a spawn places: `x` is a pixel column.
#[derive(Clone, Copy, Debug, PartialEq, Eq, Structural)]
pub struct SpawnRoll {
    pub x: u32,
    pub character: char,
}

impl SpawnRoll {
    /// A roll inside the spawn band, of a letter.
    pub open spec fn valid(self) -> bool {
        &&& SPAWN_X_MIN <= self.x < SPAWN_X_END
        &&& is_letter(self.character)
    }
}

/// A burst of letters that the spawner may produce.
pub open spec fn valid_burst(b: Seq<SpawnRoll>) -> bool {
    &&& BURST_MIN <= b.len() < BURST_END
    &&& forall|i: int| 0 <= i < b.len() ==> #[trigger] b[i].valid()
}

/// Relies on rand's `Rng::gen_range` on the thread-local generator: for a
/// non-empty range `lo..hi` it returns a value in that range (it panics on an
/// empty one).
#[verifier::external_body]
fn random_in(lo: u32, hi: u32) -> (r: u32)
    requires
        lo < hi,
    ensures
        lo <= r < hi,
{
    rand::thread_rng().gen_range(lo..hi)
}

/// A letter from `A` to `Z`, drawn at random.
pub fn random_letter() -> (c: char)
    ensures
        is_letter(c),
{
    let code: u8 = random_in('A' as u32, 'Z' as u32 + 1) as u8;
    code as char
}

/// A burst of one to three letters, each at a random column of the spawn band
/// and a random letter.
pub fn roll_burst() -> (b: Vec<SpawnRoll>)
    ensures
        valid_burst(b@),
{
    let n: u32 = random_in(BURST_MIN, BURST_END);
    let mut b: Vec<SpawnRoll> = Vec::new();
    let mut i: u32 = 0;
    while i < n
        invariant
            BURST_MIN <= n < BURST_END,
            i <= n,
            b@.len() == i,
            forall|j: int| 0 <= j < b@.len() ==> #[trigger] b@[j].valid(),
        decreases n - i,
    {
        let x: u32 = random_in(SPAWN_X_MIN, SPAWN_X_END);
        let character: char = random_letter();
        b.push(SpawnRoll { x, character });
        i = i + 1;
    }
    b
}

} // verus!
