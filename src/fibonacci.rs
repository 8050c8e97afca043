use crate::decimal::{decimal, push_decimal};
use vstd::arithmetic::div_mod::lemma_add_mod_noop;
use vstd::arithmetic::power2::{
    lemma2_to64, lemma2_to64_rest, lemma_pow2_strictly_increases, lemma_pow2_unfold, pow2,
};
use vstd::prelude::*;
use vstd::string::StringExecFns;

verus! {

/// The modulus of 64-bit unsigned arithmetic.
pub open spec fn word_modulus() -> int {
    0x1_0000_0000_0000_0000
}

/// The Fibonacci sequence over the naturals: F(0) = 0, F(1) = 1,
/// F(k) = F(k - 2) + F(k - 1).
pub open spec fn fib(k: nat) -> nat
    decreases k,
{
    if k == 0 {
        0
    } else if k == 1 {
        1
    } else {
        fib((k - 2) as nat) + fib((k - 1) as nat)
    }
}

/// F(k) as 64-bit wrapping addition computes it: F(k) reduced modulo 2^64.
pub open spec fn fib_wrapped(k: nat) -> int {
    fib(k) as int % word_modulus()
}

/// The `n`-th Fibonacci number, 0-indexed, computed iteratively with 64-bit
/// wrapping addition.
pub fn fibonacci(n: u32) -> (r: u64)
    ensures
        r as int == fib_wrapped(n as nat),
{
    if n == 0 {
        return 0;
    }
    let mut a: u64 = 0;
    let mut b: u64 = 1;
    let mut i: u32 = 1;
    while i < n
        invariant
            1 <= i <= n,
            a as int == fib_wrapped((i - 1) as nat),
            b as int == fib_wrapped(i as nat),
        decreases n - i,
    {
        let temp = a.wrapping_add(b);
        proof {
            lemma_add_mod_noop(fib((i - 1) as nat) as int, fib(i as nat) as int, word_modulus());
            assert(fib((i + 1) as nat) == fib((i - 1) as nat) + fib(i as nat));
        }
        a = b;
        b = temp;
        i = i + 1;
    }
    b
}

/// Up to position 64 the Fibonacci numbers stay below 2^64, so 64-bit
/// wrapping addition computes them exactly.
pub proof fn lemma_fib_fits_word(k: nat)
    requires
        k <= 64,
    ensures
        fib(k) < word_modulus(),
        fib_wrapped(k) == fib(k),
{
    lemma_fib_below_pow2(k);
    lemma2_to64();
    lemma2_to64_rest();
    if k < 64 {
        lemma_pow2_strictly_increases(k, 64);
    }
}

proof fn lemma_fib_below_pow2(k: nat)
    ensures
        fib(k) < pow2(k),
    decreases k,
{
    lemma2_to64();
    if k >= 2 {
        lemma_fib_below_pow2((k - 2) as nat);
        lemma_fib_below_pow2((k - 1) as nat);
        lemma_pow2_unfold(k);
        lemma_pow2_unfold((k - 1) as nat);
    }
}

/// The largest position the Fibonacci endpoint computes; larger requests are
/// reduced to it.
pub const MAX_FIB_N: u32 = 50;

/// The position computed when a request names none.
pub const DEFAULT_FIB_N: u32 = 30;

/// The position used when the query omits `n`.
pub fn default_fib_n() -> (r: u32)
    ensures
        r == DEFAULT_FIB_N,
{
    DEFAULT_FIB_N
}

/// The position actually computed for a requested one: `n`, reduced to at
/// most `MAX_FIB_N`.
pub open spec fn clamped(n: u32) -> u32 {
    if n > MAX_FIB_N {
        MAX_FIB_N
    } else {
        n
    }
}

/// Reduces a requested position to at most `MAX_FIB_N`, without error.
pub fn clamp_fib_n(n: u32) -> (r: u32)
    ensures
        r == clamped(n),
        r <= MAX_FIB_N,
{
    if n > MAX_FIB_N {
        MAX_FIB_N
    } else {
        n
    }
}

/// The query of the Fibonacci endpoint.
pub struct FibonacciQuery {
    /// The requested position.
    pub n: u32,
}

impl FibonacciQuery {
    /// The query for a parameter that may be absent: an absent `n` stands
    /// for `DEFAULT_FIB_N`.
    pub fn from_param(n: Option<u32>) -> (r: FibonacciQuery)
        ensures
            r.n == match n {
                Some(v) => v,
                None => DEFAULT_FIB_N,
            },
    {
        match n {
            Some(v) => FibonacciQuery { n: v },
            None => FibonacciQuery { n: default_fib_n() },
        }
    }
}

/// The answer of the Fibonacci endpoint.
pub struct FibonacciResponse {
    /// The position computed, after clamping.
    pub n: u32,
    /// The Fibonacci number at that position, in 64-bit wrapping arithmetic.
    pub result: u64,
    /// A sentence naming the position.
    pub message: String,
}

/// The message that accompanies the result for position `n`.
pub open spec fn fib_message(n: nat) -> Seq<char> {
    "Fibonacci number at position "@ + decimal(n)
}

/// Builds the message "Fibonacci number at position <n>".
pub fn fibonacci_message(n: u32) -> (r: String)
    ensures
        r@ == fib_message(n as nat),
{
    let mut s = String::from_str("Fibonacci number at position ");
    push_decimal(&mut s, n);
    s
}

/// Answers a Fibonacci query: clamps the position, computes the number and
/// names the position in the message.
pub fn compute_fibonacci(params: FibonacciQuery) -> (r: FibonacciResponse)
    ensures
        r.n == clamped(params.n),
        r.result as int == fib_wrapped(r.n as nat),
        r.result as nat == fib(r.n as nat),
        r.message@ == fib_message(r.n as nat),
{
    let n = clamp_fib_n(params.n);
    let result = fibonacci(n);
    proof {
        lemma_fib_fits_word(n as nat);
    }
    FibonacciResponse { n, result, message: fibonacci_message(n) }
}

} // verus!
