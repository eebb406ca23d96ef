use vstd::prelude::*;

verus! {

/// Relies on `rand::random::<u64>`: a value from the thread-local generator; nothing is known of it.
#[verifier::external_body]
fn std_random() -> (r: u64) {
    rand::random::<u64>()
}

/// The output handler used when no backend is present: it drops records and draws randomness
/// from the standard generator.
pub struct NoOpHandler {}

impl NoOpHandler {
    pub fn new() -> (h: NoOpHandler) {
        NoOpHandler {}
    }

    /// A random value from the standard generator.
    pub fn random(&self) -> u64 {
        std_random()
    }
}

/// Returns a random `u64` from the standard generator, to be used at once rather than stored or
/// used as a seed. Hosts that talk to a backend draw from it instead and hand the value to
/// `random_choice_with` or `fill_from_words`.
pub fn get_random() -> u64 {
    std_random()
}

/// The index that `random` picks among `len` choices: none of none, the only one of one, and
/// `random` reduced modulo `len` otherwise.
pub open spec fn spec_choice_index(len: nat, random: u64) -> Option<int> {
    if len == 0 {
        None
    } else if len == 1 {
        Some(0)
    } else {
        Some(((random as usize) as int) % (len as int))
    }
}

/// The index that `random` picks among `len` choices.
pub fn choice_index(len: usize, random: u64) -> (r: Option<usize>)
    ensures
        r matches Some(i) ==> i < len,
        spec_choice_index(len as nat, random) == match r {
            Some(i) => Some(i as int),
            None => None::<int>,
        },
{
    if len == 0 {
        None
    } else if len == 1 {
        Some(0)
    } else {
        Some((random as usize) % len)
    }
}

/// The item of `slice` that the random value `random` picks.
pub fn random_choice_with<T>(slice: &[T], random: u64) -> (r: Option<&T>)
    ensures
        match (r, spec_choice_index(slice@.len(), random)) {
            (Some(x), Some(i)) => *x == slice@[i],
            (None, None) => true,
            _ => false,
        },
{
    match choice_index(slice.len(), random) {
        Some(i) => Some(&slice[i]),
        None => None,
    }
}

/// An item of `slice` chosen with `get_random`: none of an empty slice, the only item of a slice
/// of one.
pub fn random_choice<T>(slice: &[T]) -> (r: Option<&T>)
    ensures
        r is None <==> slice@.len() == 0,
        slice@.len() == 1 ==> r == Some(&slice@[0]),
        r matches Some(x) ==> exists|i: int| 0 <= i < slice@.len() && *x == slice@[i],
{
    if slice.len() <= 1 {
        random_choice_with(slice, 0)
    } else {
        random_choice_with(slice, get_random())
    }
}

/// Byte `b` of `word` in little-endian order.
pub open spec fn le_byte(word: u64, b: int) -> u8 {
    (word >> ((8 * b) as u64)) as u8
}

/// Writes the little-endian bytes of `word` into `dest` from index `start`, as many as fit.
pub fn put_le_bytes(dest: &mut [u8], start: usize, word: u64)
    requires
        start <= old(dest)@.len(),
    ensures
        final(dest)@.len() == old(dest)@.len(),
        forall|k: int|
            0 <= k < final(dest)@.len() ==> #[trigger] final(dest)@[k] == if start <= k < start + 8 {
                le_byte(word, k - start)
            } else {
                old(dest)@[k]
            },
{
    let mut b: usize = 0;
    while b < 8 && b < dest.len() - start
        invariant
            start <= dest@.len(),
            b <= 8,
            start + b <= dest@.len(),
            dest@.len() == old(dest)@.len(),
            forall|k: int|
                0 <= k < dest@.len() ==> #[trigger] dest@[k] == if start <= k < start + b {
                    le_byte(word, k - start)
                } else {
                    old(dest)@[k]
                },
        decreases 8 - b,
    {
        dest[start + b] = #[verifier::truncate] ((word >> ((8 * b) as u64)) as u8);
        b = b + 1;
    }
}

/// Whether `dest` holds, byte by byte, the little-endian bytes of `words` in order.
pub open spec fn holds_le_words(dest: Seq<u8>, words: Seq<u64>) -> bool {
    forall|i: int| 0 <= i < dest.len() ==> #[trigger] dest[i] == le_byte(words[i / 8], i % 8)
}

/// How many words fill `n` bytes.
pub open spec fn words_for(n: nat) -> nat {
    if n % 8 == 0 {
        n / 8
    } else {
        n / 8 + 1
    }
}

/// Fills `dest` with the little-endian bytes of `words`, eight from each word, cutting the
/// last word short where `dest` ends.
pub fn fill_from_words(dest: &mut [u8], words: &[u64])
    requires
        old(dest)@.len() <= 8 * words@.len(),
    ensures
        final(dest)@.len() == old(dest)@.len(),
        holds_le_words(final(dest)@, words@),
{
    let mut k: usize = 0;
    let mut start: usize = 0;
    while start < dest.len()
        invariant
            dest@.len() == old(dest)@.len(),
            dest@.len() <= 8 * words@.len(),
            start <= dest@.len(),
            start < dest@.len() ==> start == 8 * k && k < words@.len(),
            forall|i: int|
                0 <= i < start && i < dest@.len() ==> #[trigger] dest@[i] == le_byte(
                    words@[i / 8],
                    i % 8,
                ),
        decreases dest@.len() - start,
    {
        put_le_bytes(dest, start, words[k]);
        proof {
            assert forall|i: int| 0 <= i < start + 8 && i < dest@.len() implies #[trigger] dest@[i]
                == le_byte(words@[i / 8], i % 8) by {
                if i >= start {
                    assert(i / 8 == k && i % 8 == i - start) by (nonlinear_arith)
                        requires
                            start == 8 * k,
                            start <= i < start + 8,
                    ;
                }
            }
        }
        if dest.len() - start <= 8 {
            start = dest.len();
        } else {
            start = start + 8;
            k = k + 1;
        }
    }
}

/// A generator whose values come from `get_random`, that is from the standard generator.
pub struct AntithesisRng;

impl AntithesisRng {
    pub fn next_u32(&mut self) -> u32 {
        get_random() as u32
    }

    pub fn next_u64(&mut self) -> u64 {
        get_random()
    }

    /// Fills `dest` with the little-endian bytes of fresh random values, one value for each
    /// eight bytes or part of them.
    pub fn fill_bytes(&mut self, dest: &mut [u8])
        ensures
            final(dest)@.len() == old(dest)@.len(),
            exists|words: Seq<u64>|
                words.len() == words_for(old(dest)@.len()) && holds_le_words(final(dest)@, words),
    {
        let n = dest.len() / 8 + if dest.len() % 8 == 0 {
            0
        } else {
            1
        };
        let mut words: Vec<u64> = Vec::new();
        while words.len() < n
            invariant
                words@.len() <= n,
            decreases n - words@.len(),
        {
            words.push(self.next_u64());
        }
        fill_from_words(dest, &words);
    }
}

} // verus!
