//! The factorial as a sample computation: the function itself and the
//! report that a compute module gives of one call.

use vstd::prelude::*;
use vstd::string::*;
use crate::tasks::decimal;
use crate::tasks::decimal_text;

verus! {

/// The largest argument whose factorial fits in 64 bits.
pub const LARGEST_ARGUMENT: u32 = 20;

/// What the module says of itself.
pub const MODULE_INFO: &'static str =
    "{\"name\":\"factorial_wasm_url\",\"version\":\"1.0\",\"description\":\"WebAssembly factorial computation from URL\",\"language\":\"rust\",\"target\":\"wasm32\",\"source\":\"url\"}";

/// `n!`
pub open spec fn factorial_of(n: nat) -> nat
    decreases n,
{
    if n == 0 {
        1
    } else {
        n * factorial_of((n - 1) as nat)
    }
}

/// The factorial grows with its argument.
pub proof fn lemma_factorial_grows(a: nat, b: nat)
    requires
        a <= b,
    ensures
        1 <= factorial_of(a) <= factorial_of(b),
    decreases b,
{
    if b == 0 {
    } else if a == b {
        lemma_factorial_grows(0, (b - 1) as nat);
        assert(b * factorial_of((b - 1) as nat) >= 1) by (nonlinear_arith)
            requires
                b >= 1,
                factorial_of((b - 1) as nat) >= 1,
        ;
    } else {
        lemma_factorial_grows(a, (b - 1) as nat);
        assert(b * factorial_of((b - 1) as nat) >= factorial_of((b - 1) as nat))
            by (nonlinear_arith)
            requires
                b >= 1,
                factorial_of((b - 1) as nat) >= 1,
        ;
    }
}

/// `20!` is 2432902008176640000, which fits in 64 bits.
pub proof fn lemma_largest_factorial()
    ensures
        factorial_of(20) == 2432902008176640000,
{
    assert(factorial_of(0) == 1);
    assert(factorial_of(1) == 1);
    assert(factorial_of(2) == 2);
    assert(factorial_of(3) == 6);
    assert(factorial_of(4) == 24);
    assert(factorial_of(5) == 120);
    assert(factorial_of(6) == 720);
    assert(factorial_of(7) == 5040);
    assert(factorial_of(8) == 40320);
    assert(factorial_of(9) == 362880);
    assert(factorial_of(10) == 3628800);
    assert(factorial_of(11) == 39916800);
    assert(factorial_of(12) == 479001600);
    assert(factorial_of(13) == 6227020800);
    assert(factorial_of(14) == 87178291200);
    assert(factorial_of(15) == 1307674368000);
    assert(factorial_of(16) == 20922789888000);
    assert(factorial_of(17) == 355687428096000);
    assert(factorial_of(18) == 6402373705728000);
    assert(factorial_of(19) == 121645100408832000);
}

/// The factorial of `n`.
pub fn factorial(n: u32) -> (result: u64)
    requires
        n <= LARGEST_ARGUMENT,
    ensures
        result == factorial_of(n as nat),
{
    proof {
        assert(factorial_of(0) == 1);
        assert(factorial_of(1) == 1);
    }
    if n == 0 || n == 1 {
        return 1;
    }
    let mut result: u64 = 1;
    let mut i: u32 = 2;
    while i <= n
        invariant
            2 <= i <= n + 1,
            n <= LARGEST_ARGUMENT,
            result == factorial_of((i - 1) as nat),
        decreases n + 1 - i,
    {
        proof {
            lemma_factorial_grows(i as nat, 20);
            lemma_largest_factorial();
            assert(result * i == i * factorial_of((i - 1) as nat)) by (nonlinear_arith)
                requires
                    result == factorial_of((i - 1) as nat),
            ;
        }
        result = result * (i as u64);
        i = i + 1;
    }
    result
}

/// The factorial of `n`, or `None` where it does not fit in 64 bits.
pub fn checked_factorial(n: u32) -> (result: Option<u64>)
    ensures
        n <= LARGEST_ARGUMENT ==> result == Some(factorial_of(n as nat) as u64),
        n > LARGEST_ARGUMENT ==> result is None,
{
    if n <= LARGEST_ARGUMENT {
        Some(factorial(n))
    } else {
        None
    }
}

/// The report of one call: the factorial, its argument, the time that the
/// computation took, who computed it and when, as one JSON object. The
/// worker's name and the timestamp are written into the text as they are.
pub open spec fn factorial_report(
    n: u32,
    worker_id: Seq<char>,
    computation_time_ms: u32,
    timestamp: Seq<char>,
) -> Seq<char> {
    "{\"factorial\":"@ + decimal(factorial_of(n as nat)) + ",\"input_number\":"@ + decimal(
        n as nat,
    ) + ",\"computation_time_ms\":"@ + decimal(computation_time_ms as nat) + ",\"worker_id\":\""@
        + worker_id + "\",\"method\":\"wasm_url\",\"timestamp\":\""@ + timestamp + "\"}"@
}

/// Computes the factorial of `n` and reports it for `worker_id`. The time
/// that the computation took and the instant of the report are the caller's
/// to measure.
pub fn compute_factorial_with_metadata(
    n: u32,
    worker_id: &str,
    computation_time_ms: u32,
    timestamp: &str,
) -> (report: String)
    requires
        n <= LARGEST_ARGUMENT,
    ensures
        report@ == factorial_report(n, worker_id@, computation_time_ms, timestamp@),
{
    let value = factorial(n);
    let mut report = String::from_str("{\"factorial\":");
    report.append(decimal_text(value).as_str());
    report.append(",\"input_number\":");
    report.append(decimal_text(n as u64).as_str());
    report.append(",\"computation_time_ms\":");
    report.append(decimal_text(computation_time_ms as u64).as_str());
    report.append(",\"worker_id\":\"");
    report.append(worker_id);
    report.append("\",\"method\":\"wasm_url\",\"timestamp\":\"");
    report.append(timestamp);
    report.append("\"}");
    report
}

/// What the module says of itself, as one JSON object.
pub fn get_module_info() -> (info: String)
    ensures
        info@ == MODULE_INFO@,
{
    String::from_str(MODULE_INFO)
}

} // verus!
