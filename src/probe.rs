//! Liveness, readiness, health and hostname probes.
use vstd::prelude::*;
use crate::reply::{status_of, text_view, Reply, ReplyView, STATUS_INTERNAL_ERROR, STATUS_OK};
use crate::router::{is_digit, value_of};
use crate::text::{opt_view, push_char};

verus! {

/// How many health checks succeed before the probe degrades.
pub const HEALTHY_CHECKS: usize = 5;

/// The decimal digit character of `d`.
pub open spec fn digit_char(d: nat) -> char
    recommends
        d < 10,
{
    ((48 + d) as u8) as char
}

/// The reply to a health check that finds `calls` earlier checks.
pub open spec fn health_view(calls: nat) -> ReplyView {
    if calls < HEALTHY_CHECKS {
        text_view(STATUS_OK, "Ok - "@.push(digit_char(calls)))
    } else {
        text_view(STATUS_INTERNAL_ERROR, "Definitely Not Ok"@)
    }
}

/// The check that finds `calls` earlier checks (the `calls + 1`-th since
/// start) answers 200 with "Ok - " and the decimal digit of `calls` while
/// `calls` is below five, and 500 "Definitely Not Ok" from then on.
pub proof fn lemma_health_degrades(calls: nat)
    ensures
        status_of(health_view(calls)) == STATUS_OK <==> calls < HEALTHY_CHECKS,
        calls < HEALTHY_CHECKS ==> health_view(calls) == text_view(
            STATUS_OK,
            "Ok - "@.push(digit_char(calls)),
        ) && is_digit(digit_char(calls)) && value_of(seq![digit_char(calls)]) == calls,
        calls >= HEALTHY_CHECKS ==> health_view(calls) == text_view(
            STATUS_INTERNAL_ERROR,
            "Definitely Not Ok"@,
        ),
{
    if calls < HEALTHY_CHECKS {
        let d = seq![digit_char(calls)];
        assert(d.drop_last() =~= Seq::<char>::empty());
        assert(value_of(d) == value_of(d.drop_last()) * 10 + (d.last() as nat - '0' as nat) as nat);
    }
}

/// Always healthy.
pub fn liveness() -> (r: Reply)
    ensures
        r@ == text_view(STATUS_OK, "Ok"@),
{
    Reply::text(STATUS_OK, "Ok")
}

/// Always ready.
pub fn readiness() -> (r: Reply)
    ensures
        r@ == text_view(STATUS_OK, "Ok"@),
{
    Reply::text(STATUS_OK, "Ok")
}

/// The reply to a health check that finds `calls` earlier checks: healthy
/// with the count while it is below five, failing from then on.
pub fn health_reply(calls: usize) -> (r: Reply)
    ensures
        r@ == health_view(calls as nat),
{
    if calls < HEALTHY_CHECKS {
        let mut body = "Ok - ".to_owned();
        let d = (48u8 + calls as u8) as char;
        push_char(&mut body, d);
        Reply::Text { status: STATUS_OK, body }
    } else {
        Reply::text(STATUS_INTERNAL_ERROR, "Definitely Not Ok")
    }
}

/// The health probe: counts its checks and degrades after five of them.
pub struct HealthProbe {
    calls: usize,
}

impl HealthProbe {
    /// The number of checks made so far.
    pub closed spec fn spec_calls(&self) -> nat {
        self.calls as nat
    }

    /// A probe that has not been checked yet.
    pub fn new() -> (r: HealthProbe)
        ensures
            r.spec_calls() == 0,
    {
        HealthProbe { calls: 0 }
    }

    /// The number of checks made so far.
    pub fn calls(&self) -> (r: usize)
        ensures
            r == self.spec_calls(),
    {
        self.calls
    }

    /// Answers one health check and counts it. The count stops at the
    /// largest `usize`, where the probe has long been failing.
    pub fn check(&mut self) -> (r: Reply)
        ensures
            r@ == health_view(old(self).spec_calls()),
            final(self).spec_calls() == if old(self).spec_calls() < usize::MAX {
                old(self).spec_calls() + 1
            } else {
                old(self).spec_calls()
            },
    {
        let r = health_reply(self.calls);
        if self.calls < usize::MAX {
            self.calls = self.calls + 1;
        }
        r
    }
}

/// Relies on `gethostname::gethostname` for the machine's host name, kept
/// only when it is valid UTF-8. The name depends on the machine, so nothing
/// is promised of it.
#[verifier::external_body]
fn machine_hostname() -> (r: Option<String>) {
    gethostname::gethostname().into_string().ok()
}

/// The reply to a hostname request, given the host name if it is valid UTF-8.
pub open spec fn hostname_view(name: Option<Seq<char>>) -> ReplyView {
    match name {
        Some(h) => text_view(STATUS_OK, h),
        None => text_view(STATUS_INTERNAL_ERROR, "host name is not valid UTF-8"@),
    }
}

/// The reply to a hostname request, given the host name if it is valid UTF-8.
pub fn hostname_reply(name: Option<String>) -> (r: Reply)
    ensures
        r@ == hostname_view(opt_view(name)),
{
    match name {
        Some(h) => Reply::Text { status: STATUS_OK, body: h },
        None => Reply::text(STATUS_INTERNAL_ERROR, "host name is not valid UTF-8"),
    }
}

/// The machine's host name as plain text.
pub fn hostname() -> (r: Reply)
    ensures
        exists|name: Option<Seq<char>>| r@ == hostname_view(name),
{
    let name = machine_hostname();
    let ghost w = opt_view(name);
    hostname_reply(name)
}

} // verus!
