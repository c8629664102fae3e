use vstd::prelude::*;

verus! {

/// How many codes a refill of the pool makes.
pub const DEFAULT_START_KEYS: usize = 50;

/// How many words make up one code.
pub const WORDS_PER_KEY: usize = 4;

/// Relies on `rand::thread_rng` and `Rng::gen_range`: a number drawn from
/// `0..n`, which panics on an empty range.
#[verifier::external_body]
fn random_index(n: usize) -> (r: usize)
    requires
        n > 0,
    ensures
        r < n,
{
    rand::Rng::gen_range(&mut rand::thread_rng(), 0..n)
}

/// The text split at each newline: one part per line, the last part being
/// what follows the final newline (empty when the text ends in one).
pub open spec fn split_lines(s: Seq<char>) -> Seq<Seq<char>>
    decreases s.len(),
{
    if exists|i: int| 0 <= i < s.len() && s[i] == '\n' {
        let i = choose|i: int| 0 <= i < s.len() && s[i] == '\n' && forall|j: int| 0 <= j < i ==> s[j] != '\n';
        if 0 <= i < s.len() {
            seq![s.take(i)] + split_lines(s.skip(i + 1))
        } else {
            seq![s]
        }
    } else {
        seq![s]
    }
}

/// Relies on `str::split` with a `'\n'` pattern: the parts between
/// newlines, in order.
#[verifier::external_body]
fn split_at_newlines(text: &str) -> (r: Vec<String>)
    ensures
        r@.map_values(|w: String| w@) == split_lines(text@),
{
    text.split('\n').map(|w| w.to_string()).collect()
}

proof fn lemma_split_lines_nonempty(s: Seq<char>)
    ensures
        split_lines(s).len() >= 1,
    decreases s.len(),
{
    if exists|i: int| 0 <= i < s.len() && s[i] == '\n' {
        let i = choose|i: int| 0 <= i < s.len() && s[i] == '\n' && forall|j: int| 0 <= j < i ==> s[j] != '\n';
        if 0 <= i < s.len() {
            lemma_split_lines_nonempty(s.skip(i + 1));
        }
    }
}

/// The word list of a words file: one word per line.
pub fn parse_words(text: &str) -> (r: Vec<String>)
    ensures
        r@.map_values(|w: String| w@) == split_lines(text@),
        r@.len() >= 1,
{
    let r = split_at_newlines(text);
    proof {
        lemma_split_lines_nonempty(text@);
        assert(r@.map_values(|w: String| w@).len() == r@.len());
    }
    r
}

/// The code made from the words at `picks`, the last pick first.
pub open spec fn joined(words: Seq<String>, picks: Seq<int>) -> Seq<char>
    decreases picks.len(),
{
    if picks.len() == 0 {
        Seq::empty()
    } else {
        words[picks.last()]@ + joined(words, picks.drop_last())
    }
}

/// `key` is made of `WORDS_PER_KEY` words of the list.
pub open spec fn is_key_of(words: Seq<String>, key: Seq<char>) -> bool {
    exists|picks: Seq<int>|
        #![trigger joined(words, picks)]
        picks.len() == WORDS_PER_KEY && (forall|k: int| 0 <= k < picks.len() ==> 0 <= #[trigger] picks[k] < words.len())
            && key == joined(words, picks)
}

/// The indices of `picks` as integers.
pub open spec fn pick_indices(picks: Seq<usize>) -> Seq<int> {
    picks.map_values(|p: usize| p as int)
}

/// Assembles a code from the words at `picks`, the last pick first.
pub fn key_from_picks(words: &Vec<String>, picks: &Vec<usize>) -> (r: String)
    requires
        forall|k: int| 0 <= k < picks@.len() ==> #[trigger] picks@[k] < words@.len(),
    ensures
        r@ == joined(words@, pick_indices(picks@)),
{
    let mut key = String::new();
    let mut n: usize = 0;
    while n < picks.len()
        invariant
            n <= picks@.len(),
            forall|k: int| 0 <= k < picks@.len() ==> #[trigger] picks@[k] < words@.len(),
            key@ == joined(words@, pick_indices(picks@.take(n as int))),
        decreases picks@.len() - n,
    {
        let mut next = words[picks[n]].clone();
        next.append(key.as_str());
        key = next;
        proof {
            let t = pick_indices(picks@.take(n as int + 1));
            assert(t.drop_last() =~= pick_indices(picks@.take(n as int)));
            assert(t.last() == picks@[n as int] as int);
        }
        n = n + 1;
    }
    proof {
        assert(picks@.take(picks@.len() as int) == picks@);
    }
    key
}

/// Makes a code of `WORDS_PER_KEY` words drawn at random from the list.
pub fn create_key(str_arr: &Vec<String>) -> (r: String)
    requires
        str_arr@.len() > 0,
    ensures
        is_key_of(str_arr@, r@),
{
    let mut picks: Vec<usize> = Vec::new();
    while picks.len() < WORDS_PER_KEY
        invariant
            str_arr@.len() > 0,
            picks@.len() <= WORDS_PER_KEY,
            forall|k: int| 0 <= k < picks@.len() ==> #[trigger] picks@[k] < str_arr@.len(),
        decreases WORDS_PER_KEY - picks@.len(),
    {
        picks.push(random_index(str_arr.len()));
    }
    let key = key_from_picks(str_arr, &picks);
    proof {
        let ints = pick_indices(picks@);
        assert forall|k: int| 0 <= k < ints.len() implies 0 <= #[trigger] ints[k] < str_arr@.len() by {
            assert(ints[k] == picks@[k] as int);
        }
        assert(joined(str_arr@, ints) == key@);
    }
    key
}

/// A pool of linking codes, handed out last made first.
pub struct KeyPool {
    keys: Vec<String>,
}

impl View for KeyPool {
    type V = Seq<String>;

    closed spec fn view(&self) -> Seq<String> {
        self.keys@
    }
}

impl KeyPool {
    pub fn new() -> (r: KeyPool)
        ensures
            r@.len() == 0,
    {
        KeyPool { keys: Vec::new() }
    }

    pub fn len(&self) -> (r: usize)
        ensures
            r == self@.len(),
    {
        self.keys.len()
    }

    /// Adds `DEFAULT_START_KEYS` new codes made from the word list.
    pub fn init_keys(&mut self, words: &Vec<String>)
        requires
            words@.len() > 0,
            old(self)@.len() + DEFAULT_START_KEYS <= usize::MAX,
        ensures
            final(self)@.len() == old(self)@.len() + DEFAULT_START_KEYS,
            final(self)@.take(old(self)@.len() as int) == old(self)@,
            forall|k: int| old(self)@.len() <= k < final(self)@.len() ==> is_key_of(words@, #[trigger] final(self)@[k]@),
    {
        let mut n: usize = 0;
        while n < DEFAULT_START_KEYS
            invariant
                words@.len() > 0,
                n <= DEFAULT_START_KEYS,
                self@.len() == old(self)@.len() + n,
                self@.take(old(self)@.len() as int) == old(self)@,
                forall|k: int| old(self)@.len() <= k < self@.len() ==> is_key_of(words@, #[trigger] self@[k]@),
            decreases DEFAULT_START_KEYS - n,
        {
            let key = create_key(words);
            let ghost before = self@;
            self.keys.push(key);
            proof {
                assert(self@.take(old(self)@.len() as int) == before.take(old(self)@.len() as int));
                assert forall|k: int| old(self)@.len() <= k < self@.len() implies is_key_of(words@, #[trigger] self@[k]@) by {
                    if k < before.len() {
                        assert(self@[k] == before[k]);
                    }
                }
            }
            n = n + 1;
        }
    }

    /// Hands out a code: the last one in the pool, or, where the pool is
    /// empty, one of a fresh refill made from the word list.
    pub fn get_key(&mut self, words: &Vec<String>) -> (r: String)
        requires
            words@.len() > 0,
        ensures
            old(self)@.len() > 0 ==> r == old(self)@.last() && final(self)@ == old(self)@.drop_last(),
            old(self)@.len() == 0 ==> is_key_of(words@, r@) && final(self)@.len() == DEFAULT_START_KEYS - 1,
    {
        if self.keys.len() == 0 {
            self.init_keys(words);
            proof {
                assert(self@[self@.len() - 1] == self@.last());
            }
        }
        self.keys.pop().unwrap()
    }
}

} // verus!
