//! Reports on the execution of tricks.

use vstd::prelude::*;
use crate::status::Status;
use crate::steps::Step;
use crate::text::{decimal, push_decimal, string_of};
use crate::version::Version;

verus! {

/// A point in time, as seconds and nanoseconds since the Unix epoch (UTC).
#[derive(Debug, Clone, Copy, PartialEq, Eq, Structural)]
pub struct Timestamp {
    pub secs: i64,
    pub nanos: u32,
}

/// Information about the system that ran a trick. Each version is `None`
/// where its probe failed.
pub struct SystemInfo {
    /// Host name.
    pub host: String,
    pub kernel: Option<Version>,
    pub docker: Option<Version>,
    pub runc: Option<Version>,
}

impl Default for SystemInfo {
    fn default() -> (r: SystemInfo)
        ensures
            r.host@.len() == 0,
            r.kernel is None,
            r.docker is None,
            r.runc is None,
    {
        SystemInfo { host: String::new(), kernel: None, docker: None, runc: None }
    }
}

/// The report on one executed step: a snapshot of the step and its status.
pub struct StepReport {
    pub inner: Step,
    pub status: Status,
}

impl StepReport {
    pub fn new(step: Step, status: Status) -> (r: StepReport)
        ensures
            r.inner == step,
            r.status == status,
    {
        StepReport { inner: step, status }
    }
}

/// The report on one trick.
pub struct TrickReport {
    /// Name of the trick.
    pub name: String,
    pub system_info: SystemInfo,
    /// One report per executed step, in order of execution.
    pub steps: Vec<StepReport>,
    /// Final status of the trick.
    pub status: Status,
}

impl TrickReport {
    /// An empty report on the trick named `name`.
    pub fn new(name: &str) -> (r: TrickReport)
        ensures
            r.name@ == name@,
            r.steps@.len() == 0,
            r.status == Status::Undecided,
            r.system_info.host@.len() == 0,
            r.system_info.kernel is None,
            r.system_info.docker is None,
            r.system_info.runc is None,
    {
        TrickReport {
            name: name.to_owned(),
            system_info: SystemInfo::default(),
            steps: Vec::new(),
            status: Status::default(),
        }
    }

    /// Appends the report on the next executed step.
    pub fn add(&mut self, step: StepReport)
        ensures
            final(self).steps@ == old(self).steps@.push(step),
            final(self).name == old(self).name,
            final(self).system_info == old(self).system_info,
            final(self).status == old(self).status,
    {
        self.steps.push(step);
    }

    pub fn set_status(&mut self, status: Status)
        ensures
            final(self).status == status,
            final(self).steps@ == old(self).steps@,
            final(self).name == old(self).name,
            final(self).system_info == old(self).system_info,
    {
        self.status = status;
    }

    /// Attaches the information probed from the system that runs the trick.
    pub fn set_system_info(&mut self, info: SystemInfo)
        ensures
            final(self).system_info == info,
            final(self).status == old(self).status,
            final(self).steps@ == old(self).steps@,
            final(self).name == old(self).name,
    {
        self.system_info = info;
    }
}

/// The report on all the tricks run by one invocation.
pub struct Report {
    /// When the report was created.
    pub date: Timestamp,
    /// One report per trick, in order of execution.
    pub exploits: Vec<TrickReport>,
}

impl Report {
    /// An empty report created at `date`.
    pub fn new(date: Timestamp) -> (r: Report)
        ensures
            r.date == date,
            r.exploits@.len() == 0,
    {
        Report { date, exploits: Vec::new() }
    }

    /// Appends the report on one more trick.
    pub fn add(&mut self, exploit: TrickReport)
        ensures
            final(self).exploits@ == old(self).exploits@.push(exploit),
            final(self).date == old(self).date,
    {
        self.exploits.push(exploit);
    }
}

/// The file name of a report whose date hashes to `hash`: `report.<hash>.json`.
pub open spec fn report_file_name_spec(hash: u64) -> Seq<char> {
    seq!['r', 'e', 'p', 'o', 'r', 't', '.'] + decimal(hash as nat) + seq!['.', 'j', 's', 'o', 'n']
}

/// The file name under which a report is written, from the hash of its date.
pub fn report_file_name(hash: u64) -> (r: String)
    ensures
        r@ == report_file_name_spec(hash),
{
    let mut out: Vec<char> = vec!['r', 'e', 'p', 'o', 'r', 't', '.'];
    push_decimal(&mut out, hash);
    out.push('.');
    out.push('j');
    out.push('s');
    out.push('o');
    out.push('n');
    proof {
        assert(out@ =~= report_file_name_spec(hash));
    }
    string_of(&out)
}

} // verus!
