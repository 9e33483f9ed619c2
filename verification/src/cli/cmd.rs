//! What the commands of the command line decide: how long setup keeps
//! trying, what is shown of a machine, and what counts as a yes.

use crate::identity::service::MachineDetails;
use crate::text::{eq_ignore_ascii_case, same_ignoring_ascii_case};
use vstd::prelude::*;
use vstd::string::*;

verus! {

/// Seconds between two attempts of setup.
pub const SETUP_INTERVAL_SECS: u64 = 10;

/// Seconds after which setup gives up.
pub const SETUP_DEADLINE_SECS: u64 = 60;

/// Setup: provisions a machine.
#[derive(Clone, Debug, PartialEq, Eq)]
pub struct Setup {
    /// Path to the settings file.
    pub settings: String,
}

/// Whoami: shows the details of the machine.
#[derive(Clone, Debug, PartialEq, Eq)]
pub struct Whoami {
    /// Path to the settings file.
    pub settings: String,
}

/// Reset: deprovisions the machine.
#[derive(Clone, Debug, PartialEq, Eq)]
pub struct Reset {
    /// Path to the settings file.
    pub settings: String,
}

/// What setup does at a tick of its clock.
#[derive(Clone, Copy, Debug, PartialEq, Eq, Structural)]
pub enum SetupStep {
    /// Try to provision by the code.
    Attempt,
    /// Give up: the time is over.
    TimedOut,
}

/// What setup does when `elapsed_secs` seconds have gone by since it
/// showed the code: it tries as long as the deadline has not come.
pub open spec fn setup_step(elapsed_secs: u64) -> SetupStep {
    if elapsed_secs < SETUP_DEADLINE_SECS {
        SetupStep::Attempt
    } else {
        SetupStep::TimedOut
    }
}

/// The seconds at which setup tries, one interval apart, as long as the
/// deadline has not come.
pub open spec fn setup_attempts() -> Seq<u64> {
    seq![10u64, 20u64, 30u64, 40u64, 50u64]
}

impl Setup {
    /// Decides what setup does at a tick, `elapsed_secs` seconds in.
    pub fn run(&self, elapsed_secs: u64) -> (step: SetupStep)
        ensures
            step == setup_step(elapsed_secs),
    {
        if elapsed_secs < SETUP_DEADLINE_SECS {
            SetupStep::Attempt
        } else {
            SetupStep::TimedOut
        }
    }

    /// The seconds at which setup tries to provision.
    pub fn attempts(&self) -> (ticks: Vec<u64>)
        ensures
            ticks@ == setup_attempts(),
            forall|i: int|
                0 <= i < ticks@.len() ==> #[trigger] ticks@[i] == (i + 1) * SETUP_INTERVAL_SECS
                    && setup_step(ticks@[i]) == SetupStep::Attempt,
            setup_step(((ticks@.len() + 1) * SETUP_INTERVAL_SECS) as u64) == SetupStep::TimedOut,
    {
        let mut ticks: Vec<u64> = Vec::new();
        let mut at: u64 = SETUP_INTERVAL_SECS;
        while at < SETUP_DEADLINE_SECS
            invariant
                at == (ticks@.len() + 1) * SETUP_INTERVAL_SECS,
                ticks@.len() <= 5,
                ticks@ =~= setup_attempts().take(ticks@.len() as int),
            decreases SETUP_DEADLINE_SECS + SETUP_INTERVAL_SECS - at,
        {
            ticks.push(at);
            at = at + SETUP_INTERVAL_SECS;
        }
        ticks
    }
}

/// One line of what whoami shows.
#[derive(Clone, Debug, PartialEq, Eq)]
pub struct ReportLine {
    pub label: String,
    pub value: String,
}

impl Whoami {
    /// What is shown of a machine, line by line: its id, its name, its
    /// alias, and the serial number and fingerprint of its certificate.
    pub fn run(&self, details: &MachineDetails, machine_name: &str, machine_alias: &str) -> (lines:
        Vec<ReportLine>)
        ensures
            lines@.len() == 5,
            lines@[0].label@ == "Id"@ && lines@[0].value@ == details.machine_id@,
            lines@[1].label@ == "Name"@ && lines@[1].value@ == machine_name@,
            lines@[2].label@ == "Alias"@ && lines@[2].value@ == machine_alias@,
            lines@[3].label@ == "Certificate Serial Number"@ && lines@[3].value@
                == details.certificate_serial_number@,
            lines@[4].label@ == "Certificate Fingerprint"@ && lines@[4].value@
                == details.certificate_fingerprint@,
    {
        let mut lines: Vec<ReportLine> = Vec::new();
        lines.push(ReportLine { label: "Id".to_owned(), value: details.machine_id.clone() });
        lines.push(ReportLine { label: "Name".to_owned(), value: machine_name.to_owned() });
        lines.push(ReportLine { label: "Alias".to_owned(), value: machine_alias.to_owned() });
        lines.push(
            ReportLine {
                label: "Certificate Serial Number".to_owned(),
                value: details.certificate_serial_number.clone(),
            },
        );
        lines.push(
            ReportLine {
                label: "Certificate Fingerprint".to_owned(),
                value: details.certificate_fingerprint.clone(),
            },
        );
        lines
    }
}

/// White space, as the standard library knows it.
pub open spec fn is_whitespace(c: char) -> bool {
    let u = c as u32;
    (0x09 <= u && u <= 0x0d) || u == 0x20 || u == 0x85 || u == 0xa0 || u == 0x1680 || (0x2000 <= u
        && u <= 0x200a) || u == 0x2028 || u == 0x2029 || u == 0x202f || u == 0x205f || u == 0x3000
}

/// How many characters of white space a text begins with.
pub open spec fn leading_space(s: Seq<char>) -> nat
    decreases s.len(),
{
    if s.len() > 0 && is_whitespace(s[0]) {
        1 + leading_space(s.skip(1))
    } else {
        0
    }
}

/// How many characters of white space a text ends with.
pub open spec fn trailing_space(s: Seq<char>) -> nat
    decreases s.len(),
{
    if s.len() > 0 && is_whitespace(s.last()) {
        1 + trailing_space(s.drop_last())
    } else {
        0
    }
}

/// A text without the white space round it.
pub open spec fn trimmed(s: Seq<char>) -> Seq<char> {
    if leading_space(s) >= s.len() {
        Seq::<char>::empty()
    } else {
        s.subrange(leading_space(s) as int, s.len() - trailing_space(s))
    }
}

/// Whether an answer is a yes: `y` or `yes`, in either case, with white
/// space round it or without.
pub open spec fn is_yes(answer: Seq<char>) -> bool {
    same_ignoring_ascii_case(trimmed(answer), "y"@) || same_ignoring_ascii_case(
        trimmed(answer),
        "yes"@,
    )
}

fn whitespace(c: char) -> (r: bool)
    ensures
        r == is_whitespace(c),
{
    let u = c as u32;
    (0x09 <= u && u <= 0x0d) || u == 0x20 || u == 0x85 || u == 0xa0 || u == 0x1680 || (0x2000 <= u
        && u <= 0x200a) || u == 0x2028 || u == 0x2029 || u == 0x202f || u == 0x205f || u == 0x3000
}

/// Takes the white space round a text away.
pub fn trim(s: &str) -> (t: &str)
    ensures
        t@ == trimmed(s@),
{
    let n = s.unicode_len();
    let mut start: usize = 0;
    assert(s@.skip(0) =~= s@);
    while start < n && whitespace(s.get_char(start))
        invariant
            n == s@.len(),
            start <= n,
            leading_space(s@) == start + leading_space(s@.skip(start as int)),
        decreases n - start,
    {
        assert(s@.skip(start as int)[0] == s@[start as int]);
        assert(s@.skip(start as int).skip(1) =~= s@.skip(start + 1));
        start += 1;
    }
    if start == n {
        return s.substring_char(0, 0);
    }
    assert(s@.skip(start as int)[0] == s@[start as int]);
    let mut end: usize = n;
    assert(s@.take(n as int) =~= s@);
    while end > start && whitespace(s.get_char(end - 1))
        invariant
            n == s@.len(),
            start < end <= n,
            start == leading_space(s@),
            !is_whitespace(s@[start as int]),
            trailing_space(s@) == (n - end) + trailing_space(s@.take(end as int)),
        decreases end,
    {
        assert(s@.take(end as int).last() == s@[end - 1]);
        assert(s@.take(end as int).drop_last() =~= s@.take(end - 1));
        end -= 1;
    }
    assert(s@.take(end as int).last() == s@[end - 1]);
    s.substring_char(start, end)
}

impl Reset {
    /// Decides whether the answer to the question of reset is a yes.
    pub fn run(&self, answer: &str) -> (confirmed: bool)
        ensures
            confirmed == is_yes(answer@),
    {
        let said = trim(answer);
        eq_ignore_ascii_case(said, "y") || eq_ignore_ascii_case(said, "yes")
    }
}

} // verus!
