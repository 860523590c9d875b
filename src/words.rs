use rand::seq::IndexedRandom;
use vstd::prelude::*;
use vstd::string::*;

verus! {

/// How many target words one session presents.
pub const SAMPLE_SIZE: usize = 10;

/// The fixed list of words that target words are drawn from.
pub open spec fn word_corpus() -> Seq<Seq<char>> {
    seq![
        "hello"@, "world"@, "rust"@, "speed"@, "test"@, "keyboard"@,
        "fast"@, "typing"@, "game"@, "challenge"@, "performance"@, "accuracy"@,
    ]
}

/// `idx` picks `idx.len()` distinct positions of a sequence of length `n`.
pub open spec fn distinct_positions(idx: Seq<int>, n: int) -> bool {
    &&& idx.no_duplicates()
    &&& forall|k: int| 0 <= k < idx.len() ==> 0 <= #[trigger] idx[k] < n
}

/// `picked` lists items of `pool`, each taken from a different position of it.
pub open spec fn drawn_without_repetition(picked: Seq<Seq<char>>, pool: Seq<Seq<char>>) -> bool {
    exists|idx: Seq<int>|
        {
            &&& #[trigger] distinct_positions(idx, pool.len() as int)
            &&& idx.len() == picked.len()
            &&& forall|k: int| 0 <= k < picked.len() ==> picked[k] == pool[idx[k]]
        }
}

/// The view of each string of a vector.
pub open spec fn strings_view(v: Seq<String>) -> Seq<Seq<char>> {
    v.map_values(|s: String| s@)
}

/// Relies on rand's `IndexedRandom::choose_multiple` on a slice, with the
/// thread-local generator: it takes `min(amount, len)` items at distinct
/// positions drawn by `rand::seq::index::sample`, in random order.
#[verifier::external_body]
fn choose_multiple(pool: &Vec<String>, amount: usize) -> (r: Vec<String>)
    ensures
        r@.len() == if amount < pool@.len() { amount as int } else { pool@.len() as int },
        drawn_without_repetition(strings_view(r@), strings_view(pool@)),
{
    pool.choose_multiple(&mut rand::rng(), amount).cloned().collect()
}

/// The word list as owned strings, in its fixed order.
pub fn word_corpus_vec() -> (r: Vec<String>)
    ensures
        strings_view(r@) == word_corpus(),
{
    let mut v: Vec<String> = Vec::new();
    v.push(String::from_str("hello"));
    v.push(String::from_str("world"));
    v.push(String::from_str("rust"));
    v.push(String::from_str("speed"));
    v.push(String::from_str("test"));
    v.push(String::from_str("keyboard"));
    v.push(String::from_str("fast"));
    v.push(String::from_str("typing"));
    v.push(String::from_str("game"));
    v.push(String::from_str("challenge"));
    v.push(String::from_str("performance"));
    v.push(String::from_str("accuracy"));
    assert(strings_view(v@) =~= word_corpus());
    v
}

/// A fresh random sample of `SAMPLE_SIZE` target words, none of the corpus
/// positions taken twice.
pub fn generate_text() -> (r: Vec<String>)
    ensures
        r@.len() == SAMPLE_SIZE,
        drawn_without_repetition(strings_view(r@), word_corpus()),
{
    let corpus = word_corpus_vec();
    choose_multiple(&corpus, SAMPLE_SIZE)
}

} // verus!
