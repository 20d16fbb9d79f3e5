//! Fixed-length identifiers drawn at random from an alphabet.
use vstd::prelude::*;
use rand::Rng;

verus! {

/// The 62 symbols `A`..`Z`, `a`..`z`, `0`..`9`, in that order.
pub open spec fn alphanum() -> Seq<char> {
    Seq::new(
        62,
        |i: int|
            if i < 26 {
                (65 + i) as char
            } else if i < 52 {
                (71 + i) as char
            } else {
                (i - 4) as char
            },
    )
}

/// Every symbol of `symbols` is an ASCII character.
pub open spec fn all_ascii(symbols: Seq<u8>) -> bool {
    forall|i: int| 0 <= i < symbols.len() ==> symbols[i] < 128
}

/// The bytes of `symbols` read as characters.
pub open spec fn as_chars(symbols: Seq<u8>) -> Seq<char> {
    symbols.map_values(|b: u8| b as char)
}

/// `rand`'s generator of the current thread; nothing inside it is visible
/// to the verifier.
#[verifier::external_type_specification]
#[verifier::external_body]
pub struct ExThreadRng(rand::rngs::ThreadRng);

/// `rand::thread_rng` hands out the generator of the current thread.
///
/// Trusted: nothing is claimed of what it hands out.
pub assume_specification[ rand::thread_rng ]() -> (rng: rand::rngs::ThreadRng);

/// Calls `rand::Rng::gen_range` on the half-open range `0..bound`.
///
/// Trusted: the number drawn lies in the range. Which number it is depends
/// on the generator, so nothing more is said. An empty range is left out,
/// because `gen_range` panics on it.
#[verifier::external_body]
fn random_below(rng: &mut rand::rngs::ThreadRng, bound: usize) -> (index: usize)
    requires
        bound > 0,
    ensures
        index < bound,
{
    rng.gen_range(0..bound)
}

/// A string of exactly `LENGTH` ASCII characters.
#[derive(Debug)]
pub struct AsciiString<const LENGTH: usize> {
    inner: String,
}

impl<const LENGTH: usize> View for AsciiString<LENGTH> {
    type V = Seq<char>;

    closed spec fn view(&self) -> Seq<char> {
        self.inner@
    }
}

impl<const LENGTH: usize> AsciiString<LENGTH> {
    #[verifier::type_invariant]
    spec fn well_formed(&self) -> bool {
        &&& self.inner@.len() == LENGTH
        &&& forall|i: int| 0 <= i < self.inner@.len() ==> (self.inner@[i] as int) < 128
    }

    fn new(inner: String) -> (made: AsciiString<LENGTH>)
        requires
            inner@.len() == LENGTH,
            forall|i: int| 0 <= i < inner@.len() ==> (inner@[i] as int) < 128,
        ensures
            made@ == inner@,
    {
        AsciiString { inner }
    }

    /// The characters of the string.
    pub fn as_str(&self) -> (text: &str)
        ensures
            text@ == self@,
            text@.len() == LENGTH,
            forall|i: int| 0 <= i < text@.len() ==> (text@[i] as int) < 128,
    {
        proof {
            use_type_invariant(self);
        }
        self.inner.as_str()
    }
}

/// A source of random strings over a fixed, non-empty ASCII alphabet.
#[derive(Debug)]
pub struct RandomString {
    symbols: Vec<u8>,
}

impl View for RandomString {
    type V = Seq<char>;

    /// The alphabet, in the order in which it was given.
    closed spec fn view(&self) -> Seq<char> {
        as_chars(self.symbols@)
    }
}

fn alphanum_symbols() -> (symbols: Vec<u8>)
    ensures
        symbols@.len() == 62,
        as_chars(symbols@) == alphanum(),
        all_ascii(symbols@),
{
    let mut symbols: Vec<u8> = Vec::new();
    let mut i: u8 = 0;
    while i < 62
        invariant
            i <= 62,
            symbols@.len() == i,
            all_ascii(symbols@),
            forall|j: int| 0 <= j < i ==> (symbols@[j] as char) == alphanum()[j],
        decreases 62 - i,
    {
        let symbol: u8 = if i < 26 {
            65 + i
        } else if i < 52 {
            71 + i
        } else {
            i - 4
        };
        symbols.push(symbol);
        i += 1;
    }
    assert(as_chars(symbols@) =~= alphanum());
    symbols
}

impl RandomString {
    #[verifier::type_invariant]
    spec fn well_formed(&self) -> bool {
        &&& self.symbols@.len() > 0
        &&& all_ascii(self.symbols@)
    }

    /// A source over `symbols`, or over the 62 alphanumeric symbols when
    /// none are given. The alphabet must be non-empty and ASCII.
    pub fn new(symbols: Option<&'static [u8]>) -> (source: RandomString)
        requires
            symbols matches Some(given) ==> given@.len() > 0 && all_ascii(given@),
        ensures
            source@ == (match symbols {
                Some(given) => as_chars(given@),
                None => alphanum(),
            }),
    {
        match symbols {
            Some(given) => RandomString { symbols: vstd::slice::slice_to_vec(given) },
            None => RandomString { symbols: alphanum_symbols() },
        }
    }

    /// The number of symbols in the alphabet, which is never zero.
    pub fn len(&self) -> (count: usize)
        ensures
            count == self@.len(),
            count > 0,
    {
        proof {
            use_type_invariant(self);
        }
        self.symbols.len()
    }

    /// The symbol at position `index` of the alphabet.
    pub fn symbol(&self, index: usize) -> (c: char)
        requires
            index < self@.len(),
        ensures
            c == self@[index as int],
            (c as int) < 128,
    {
        proof {
            use_type_invariant(self);
        }
        self.symbols[index] as char
    }

    /// A fresh string of `LENGTH` symbols, each drawn from the alphabet
    /// independently of the others.
    pub fn next_string<const LENGTH: usize>(&self) -> (drawn: AsciiString<LENGTH>)
        ensures
            drawn@.len() == LENGTH,
            forall|i: int| 0 <= i < LENGTH ==> self@.contains(#[trigger] drawn@[i]),
    {
        let mut rng = rand::thread_rng();
        let count = self.len();
        let mut out = String::new();
        let mut i: usize = 0;
        while i < LENGTH
            invariant
                i <= LENGTH,
                count == self@.len(),
                count > 0,
                out@.len() == i,
                forall|j: int| 0 <= j < i ==> self@.contains(#[trigger] out@[j]),
                forall|j: int| 0 <= j < i ==> (out@[j] as int) < 128,
            decreases LENGTH - i,
        {
            let index = random_below(&mut rng, count);
            let c = self.symbol(index);
            out.push(c);
            i += 1;
        }
        AsciiString::new(out)
    }
}

/// Every alphanumeric symbol is an upper-case letter, a lower-case letter or
/// a digit, and no symbol occurs twice among the 62.
pub proof fn alphanum_symbols_are_alphanumeric()
    ensures
        alphanum().len() == 62,
        forall|i: int|
            0 <= i < 62 ==> {
                let c = #[trigger] alphanum()[i];
                ('A' <= c <= 'Z') || ('a' <= c <= 'z') || ('0' <= c <= '9')
            },
        forall|i: int, j: int| 0 <= i < j < 62 ==> alphanum()[i] != alphanum()[j],
{
}

} // verus!
