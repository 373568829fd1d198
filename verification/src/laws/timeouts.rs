//! Laws of the timeouts: which number sets which timeout, and which call waits for how long.

use vstd::arithmetic::power2::{lemma_pow2_pos, pow2};
use vstd::prelude::*;

use crate::double::{
    duration_of, exponent, fits_seconds, is_span, is_zero, lemma_fits_seconds, nanos_of, power,
    seconds_to_duration, significand, Duration,
};
use crate::error::{AdbcError, Status};
use crate::laws::{tells, tells_of};
use crate::options::{Double, Number, OptionEffect, OptionValue};
use crate::timeouts::TimeoutOption;

verus! {

/// The bits are those of a finite number that is not below zero.
pub open spec fn is_finite_and_not_negative(bits: u64) -> bool {
    bits < 0x7ff0_0000_0000_0000 || bits == 0x8000_0000_0000_0000
}

/// The bits are those of zero, with or without a sign.
pub open spec fn is_no_time(bits: u64) -> bool {
    bits == 0 || bits == 0x8000_0000_0000_0000
}

/// A span is the nearest number of nanoseconds to a number of seconds, and the even one of two that
/// are equally near. The number is a whole number times a power of two: above bit 52 stands the
/// exponent, below it the digits.
pub open spec fn is_nearest_span(bits: u64, span: Duration) -> bool {
    let exponent = bits / 0x10_0000_0000_0000;
    let digits = if exponent == 0 {
        bits as int
    } else {
        bits % 0x10_0000_0000_0000 + 0x10_0000_0000_0000
    };
    let nanos = span.secs * 1_000_000_000 + span.nanos;
    if exponent >= 1075 {
        nanos == digits * 1_000_000_000 * pow2((exponent - 1075) as nat)
    } else {
        let parts = pow2(
            if exponent == 0 {
                1074nat
            } else {
                (1075 - exponent) as nat
            },
        );
        let off = 2 * (digits * 1_000_000_000 - nanos * parts);
        -parts <= off <= parts && (off == parts || off == -parts ==> nanos % 2 == 0)
    }
}

/// Seconds become the nearest span of time.
pub proof fn law_seconds_are_rounded_to_the_nearest(bits: u64, r: Duration)
    requires
        bits < 0x43f0_0000_0000_0000,
        call_ensures(seconds_to_duration, (bits,), r),
    ensures
        is_nearest_span(bits, r),
        r.nanos < 1_000_000_000,
{
    lemma_nearest_span(bits);
}

/// The key is that of a timeout.
pub open spec fn is_timeout_key(key: Seq<char>) -> bool {
    ||| key == "adbc.flight.sql.rpc.timeout_seconds.fetch"@
    ||| key == "adbc.flight.sql.rpc.timeout_seconds.query"@
    ||| key == "adbc.flight.sql.rpc.timeout_seconds.update"@
    ||| key == "adbc.flight.sql.rpc.timeout_seconds.connect"@
}

/// The keys of the timeouts are told apart.
proof fn lemma_timeout_keys_are_told_apart()
    ensures
        "adbc.flight.sql.rpc.timeout_seconds.fetch"@.len() == 41,
        "adbc.flight.sql.rpc.timeout_seconds.fetch"@[36] == 'f',
        "adbc.flight.sql.rpc.timeout_seconds.query"@.len() == 41,
        "adbc.flight.sql.rpc.timeout_seconds.query"@[36] == 'q',
        "adbc.flight.sql.rpc.timeout_seconds.update"@.len() == 42,
        "adbc.flight.sql.rpc.timeout_seconds.connect"@.len() == 43,
{
    reveal_strlit("adbc.flight.sql.rpc.timeout_seconds.fetch");
    reveal_strlit("adbc.flight.sql.rpc.timeout_seconds.query");
    reveal_strlit("adbc.flight.sql.rpc.timeout_seconds.update");
    reveal_strlit("adbc.flight.sql.rpc.timeout_seconds.connect");
}

/// A timeout takes over a number of seconds where it is set, and stays as it was where not. Zero
/// seconds remove it.
pub open spec fn waits(
    set: bool,
    bits: u64,
    before: Option<Duration>,
    after: Option<Duration>,
) -> bool {
    if !set {
        after == before
    } else if is_no_time(bits) {
        after is None
    } else {
        after matches Some(span) && is_nearest_span(bits, span)
    }
}

/// A finite number that is not below zero is told from every other by its bits.
proof fn lemma_finite_numbers(bits: u64)
    ensures
        is_span(bits) <==> is_finite_and_not_negative(bits),
        is_zero(bits) <==> is_no_time(bits),
        bits < 0x43f0_0000_0000_0000 ==> fits_seconds(bits),
{
    let e = bits / 0x10_0000_0000_0000;
    assert(e < 0x1000);
}

/// A number of seconds reaches the timeout of its key and no other.
pub proof fn law_timeout_reaches_its_kind(
    timeouts: &mut TimeoutOption,
    key: &str,
    seconds: &Double,
    r: Result<(), AdbcError>,
)
    requires
        seconds.bits < 0x43f0_0000_0000_0000 || is_no_time(seconds.bits),
        call_ensures(TimeoutOption::set_timeout_seconds, (timeouts, key, seconds), r),
    ensures
        waits(
            key@ == "adbc.flight.sql.rpc.timeout_seconds.fetch"@,
            seconds.bits,
            old(timeouts).fetch_timeout,
            final(timeouts).fetch_timeout,
        ),
        waits(
            key@ == "adbc.flight.sql.rpc.timeout_seconds.query"@,
            seconds.bits,
            old(timeouts).query_timeout,
            final(timeouts).query_timeout,
        ),
        waits(
            key@ == "adbc.flight.sql.rpc.timeout_seconds.update"@,
            seconds.bits,
            old(timeouts).update_timeout,
            final(timeouts).update_timeout,
        ),
        waits(
            key@ == "adbc.flight.sql.rpc.timeout_seconds.connect"@,
            seconds.bits,
            old(timeouts).connect_timeout,
            final(timeouts).connect_timeout,
        ),
{
    lemma_timeout_keys_are_told_apart();
    lemma_finite_numbers(seconds.bits);
    if seconds.bits < 0x43f0_0000_0000_0000 {
        lemma_nearest_span(seconds.bits);
    }
}

/// A timeout is set under a known key to a finite number that is not below zero. Everything else is
/// an invalid argument, and changes nothing.
pub proof fn law_timeout_is_set_or_refused(
    timeouts: &mut TimeoutOption,
    key: &str,
    seconds: &Double,
    r: Result<(), AdbcError>,
)
    requires
        call_ensures(TimeoutOption::set_timeout_seconds, (timeouts, key, seconds), r),
    ensures
        r is Ok <==> is_timeout_key(key@) && is_finite_and_not_negative(seconds.bits),
        r is Err ==> *final(timeouts) == *old(timeouts),
        !is_finite_and_not_negative(seconds.bits) ==> (r matches Err(e) && tells_of(
            e,
            Status::InvalidArguments,
            "setting timeout"@,
            "invalid timeout seconds: "@ + seconds.display@,
        )),
        is_finite_and_not_negative(seconds.bits) && !is_timeout_key(key@) ==> (r matches Err(e)
            && tells(e, Status::InvalidArguments, "unknown timeout key: "@ + key@)),
{
    lemma_timeout_keys_are_told_apart();
    lemma_finite_numbers(seconds.bits);
}

/// The span of a timeout: empty where there is none.
pub open spec fn span_of(timeout: Option<Duration>) -> Duration {
    match timeout {
        Some(span) => span,
        None => Duration { secs: 0, nanos: 0 },
    }
}

/// Reading a timeout gives the span of its key, which is empty where there is no timeout.
pub proof fn law_timeout_is_read_by_its_kind(
    timeouts: &TimeoutOption,
    key: &str,
    r: Result<Duration, AdbcError>,
)
    requires
        call_ensures(TimeoutOption::get_timeout_seconds, (timeouts, key), r),
    ensures
        key@ == "adbc.flight.sql.rpc.timeout_seconds.fetch"@ ==> r == Ok::<Duration, AdbcError>(
            span_of(timeouts.fetch_timeout),
        ),
        key@ == "adbc.flight.sql.rpc.timeout_seconds.query"@ ==> r == Ok::<Duration, AdbcError>(
            span_of(timeouts.query_timeout),
        ),
        key@ == "adbc.flight.sql.rpc.timeout_seconds.update"@ ==> r == Ok::<Duration, AdbcError>(
            span_of(timeouts.update_timeout),
        ),
        key@ == "adbc.flight.sql.rpc.timeout_seconds.connect"@ ==> r == Ok::<Duration, AdbcError>(
            span_of(timeouts.connect_timeout),
        ),
        !is_timeout_key(key@) ==> (r matches Err(e) && tells(
            e,
            Status::NotFound,
            "unknown timeout key: "@ + key@,
        )),
{
    lemma_timeout_keys_are_told_apart();
}

/// A timeout that was set is the one that is read, and every other reads as before.
pub proof fn law_set_timeout_is_read(
    timeouts: &mut TimeoutOption,
    key: &str,
    seconds: &Double,
    set_r: Result<(), AdbcError>,
    r: Result<Duration, AdbcError>,
    other: &str,
    other_before: Result<Duration, AdbcError>,
    other_after: Result<Duration, AdbcError>,
)
    requires
        seconds.bits < 0x43f0_0000_0000_0000,
        call_ensures(TimeoutOption::set_timeout_seconds, (timeouts, key, seconds), set_r),
        set_r is Ok,
        call_ensures(TimeoutOption::get_timeout_seconds, (&*final(timeouts), key), r),
        call_ensures(TimeoutOption::get_timeout_seconds, (&*old(timeouts), other), other_before),
        call_ensures(TimeoutOption::get_timeout_seconds, (&*final(timeouts), other), other_after),
    ensures
        r matches Ok(span) && is_nearest_span(seconds.bits, span),
        other@ != key@ ==> other_before is Ok == other_after is Ok && (other_before is Ok
            ==> other_before == other_after),
{
    lemma_timeout_keys_are_told_apart();
    lemma_finite_numbers(seconds.bits);
    lemma_nearest_span(seconds.bits);
    if seconds.bits == 0 {
        lemma_pow2_pos(1074);
        assert(is_nearest_span(0, Duration { secs: 0, nanos: 0 })) by {
            assert(0 * pow2(1074) == 0) by (nonlinear_arith);
        }
    }
}

/// The span that the timeouts compute for a number of seconds is the nearest one.
proof fn lemma_nearest_span(bits: u64)
    requires
        bits < 0x43f0_0000_0000_0000,
    ensures
        is_nearest_span(bits, duration_of(nanos_of(bits))),
{
    assert(exponent(bits) == bits / 0x10_0000_0000_0000);
    assert(pow2(64) == 0x1_0000_0000_0000_0000) by {
        vstd::arithmetic::power2::lemma2_to64_rest();
    }
    lemma_finite_numbers(bits);
    lemma_fits_seconds(bits);
    let m = significand(bits);
    if power(bits) < 0 {
        let d = pow2((-power(bits)) as nat);
        lemma_pow2_pos((-power(bits)) as nat);
        let n = m * 1_000_000_000;
        let q = n / d;
        vstd::arithmetic::div_mod::lemma_fundamental_div_mod(n as int, d as int);
        vstd::arithmetic::div_mod::lemma_mod_bound(n as int, d as int);
        assert(q <= n) by (nonlinear_arith)
            requires
                n == d * q + n % d,
                n % d >= 0,
                d >= 1,
                q >= 0,
        ;
        assert((q + 1) * d == d * q + d) by (nonlinear_arith);
        assert(q * d == d * q) by (nonlinear_arith);
    } else {
        let s = pow2(power(bits) as nat);
        assert(m * 1_000_000_000 * s == (m * s) * 1_000_000_000) by (nonlinear_arith);
    }
}

/// A value of a timeout option counts as it is if it is a double, is to be converted if it is an
/// integer or a text, and is refused if it is bytes.
pub proof fn law_timeout_values_are_numbers(
    timeouts: &mut TimeoutOption,
    key: &str,
    value: &OptionValue,
    r: Result<OptionEffect, AdbcError>,
    direct: &mut TimeoutOption,
    seconds: &Double,
    direct_r: Result<(), AdbcError>,
)
    requires
        call_ensures(TimeoutOption::set_timeout_value, (timeouts, key, value), r),
        call_ensures(TimeoutOption::set_timeout_seconds, (direct, key, seconds), direct_r),
        *old(direct) == *old(timeouts),
    ensures
        *value matches OptionValue::Double(d) ==> d == *seconds ==> {
            &&& *final(timeouts) == *final(direct)
            &&& r is Ok <==> direct_r is Ok
            &&& r matches Ok(effect) ==> effect is Done
            &&& r matches Err(e) ==> e@ == direct_r->Err_0@
        },
        !(*value is Double) ==> *final(timeouts) == *old(timeouts),
        *value matches OptionValue::Int(i) ==> (r matches Ok(OptionEffect::ConvertSeconds(
            Number::Int(j),
        )) && j == i),
        *value matches OptionValue::String(s) ==> (r matches Ok(OptionEffect::ConvertSeconds(
            Number::Text(t),
        )) && t@ == s@),
        *value is Bytes ==> (r matches Err(e) && tells(
            e,
            Status::InvalidArguments,
            "timeout must be a number"@,
        )),
{
}

/// A converted number counts as one that was given as a double; a text that is no number is
/// refused.
pub proof fn law_converted_seconds_count(
    timeouts: &mut TimeoutOption,
    key: &str,
    converted: Option<Double>,
    r: Result<(), AdbcError>,
    direct: &mut TimeoutOption,
    seconds: &Double,
    direct_r: Result<(), AdbcError>,
)
    requires
        call_ensures(TimeoutOption::set_converted_seconds, (timeouts, key, converted), r),
        call_ensures(TimeoutOption::set_timeout_seconds, (direct, key, seconds), direct_r),
        *old(direct) == *old(timeouts),
    ensures
        converted matches Some(d) ==> d == *seconds ==> *final(timeouts) == *final(direct) && (r
            is Ok <==> direct_r is Ok),
        converted is None ==> *final(timeouts) == *old(timeouts) && (r matches Err(e) && tells(
            e,
            Status::InvalidArguments,
            "timeout value must be a number"@,
        )),
{
}

/// A remote method waits as long as its kind: fetches for `DoGet`, queries for `GetFlightInfo`,
/// updates for `DoPut` and `DoAction`, whatever stands before that in its name.
pub proof fn law_method_waits_by_its_kind(
    timeouts: &TimeoutOption,
    method: &str,
    service: Seq<char>,
    r: Option<Duration>,
)
    requires
        call_ensures(TimeoutOption::timeout_for_method, (timeouts, method), r),
    ensures
        method@ == service + "DoGet"@ ==> r == timeouts.fetch_timeout,
        method@ == service + "GetFlightInfo"@ ==> r == timeouts.query_timeout,
        method@ == service + "DoPut"@ ==> r == timeouts.update_timeout,
        method@ == service + "DoAction"@ ==> r == timeouts.update_timeout,
        r is Some ==> names_method(method@, "DoGet"@) || names_method(method@, "GetFlightInfo"@)
            || names_method(method@, "DoPut"@) || names_method(method@, "DoAction"@),
{
    reveal_strlit("DoGet");
    reveal_strlit("GetFlightInfo");
    reveal_strlit("DoPut");
    reveal_strlit("DoAction");
    assert((service + "DoGet"@).skip(service.len() as int) == "DoGet"@);
    assert((service + "GetFlightInfo"@).skip(service.len() as int) == "GetFlightInfo"@);
    assert((service + "DoPut"@).skip(service.len() as int) == "DoPut"@);
    assert((service + "DoAction"@).skip(service.len() as int) == "DoAction"@);
    let n = method@.len() as int;
    let last = |k: int| method@.subrange(n - k, n);
    assert(n >= 5 ==> last(5)[2] == method@[n - 3] && last(5)[0] == method@[n - 5] && last(5)[4]
        == method@[n - 1]);
    assert(n >= 13 ==> last(13)[12] == method@[n - 1]);
    assert(n >= 8 ==> last(8)[7] == method@[n - 1]);
    assert(n >= 5 ==> method@.skip(n - 5) == last(5));
    assert(n >= 8 ==> method@.skip(n - 8) == last(8));
    assert(n >= 13 ==> method@.skip(n - 13) == last(13));
}

/// A method has that name, after the name of its service.
pub open spec fn names_method(method: Seq<char>, name: Seq<char>) -> bool {
    name.len() <= method.len() && method.skip(method.len() - name.len()) == name
}

} // verus!
