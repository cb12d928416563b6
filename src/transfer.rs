use vstd::prelude::*;
use crate::config::{S3Server, Server, server_default_path};
use crate::remote_dir::ErrorCode;

verus! {

/// Why the transfer of one file failed.
#[derive(PartialEq, Eq, Structural, Clone, Copy, Debug)]
pub enum TransferError {
    /// The destination's settings cannot make a session.
    ConfigInvalid,
    /// The connection or the session could not be set up.
    ConnectFailed,
    /// The remote side refused the credentials.
    AuthFailed,
    /// The remote side refused the file.
    RemoteRejected,
    /// The local file could not be read.
    LocalIoFailed,
    /// A remote directory could not be created.
    DirectoryCreateFailed(ErrorCode),
}

/// Whether `name` is a region that the object-storage client knows by name.
pub uninterp spec fn known_region(name: Seq<char>) -> bool;

/// Relies on rusoto_core's `Region::from_str`: whether it parses `name`, which
/// depends on `name` alone; no region has an empty name.
#[verifier::external_body]
fn parses_as_region(name: &str) -> (r: bool)
    ensures
        r == known_region(name@),
        name@.len() == 0 ==> !r,
{
    name.parse::<rusoto_core::Region>().is_ok()
}

/// The region an object-storage client is built for.
#[derive(Debug)]
pub enum RegionChoice {
    /// A service of its own at `endpoint`, under the region name `name`.
    Custom { name: String, endpoint: String },
    /// The standard endpoint of a named region.
    Named(String),
}

pub open spec fn region_choice_ok(target: S3Server, r: RegionChoice) -> bool {
    match target.endpoint {
        Some(e) => r matches RegionChoice::Custom { name, endpoint } && name@ == target.region@
            && endpoint@ == e@,
        None => r matches RegionChoice::Named(n) && n@ == target.region@,
    }
}

/// The region of `target`, given whether its region name is a known one: an
/// endpoint override wins; else the name must be known.
pub fn region_choice(target: &S3Server, region_known: bool) -> (r: Result<
    RegionChoice,
    TransferError,
>)
    ensures
        target.endpoint.is_some() || region_known ==> (r matches Ok(c) && region_choice_ok(
            *target,
            c,
        )),
        target.endpoint.is_none() && !region_known ==> r == Err::<RegionChoice, TransferError>(
            TransferError::ConfigInvalid,
        ),
{
    match &target.endpoint {
        Some(e) => Ok(RegionChoice::Custom { name: target.region.clone(), endpoint: e.clone() }),
        None => {
            if region_known {
                Ok(RegionChoice::Named(target.region.clone()))
            } else {
                Err(TransferError::ConfigInvalid)
            }
        },
    }
}

/// The region of `target`, checked before any connection is made.
pub fn s3_region(target: &S3Server) -> (r: Result<RegionChoice, TransferError>)
    ensures
        target.endpoint.is_some() || known_region(target.region@) ==> (r matches Ok(c)
            && region_choice_ok(*target, c)),
        target.endpoint.is_none() && !known_region(target.region@) ==> r == Err::<
            RegionChoice,
            TransferError,
        >(TransferError::ConfigInvalid),
{
    let known = parses_as_region(target.region.as_str());
    region_choice(target, known)
}

/// The remote prefix to use: the one given, else the destination's default.
pub fn remote_prefix(server: &Server, path: &Option<String>) -> (r: String)
    ensures
        path.is_some() ==> r@ == path.unwrap()@,
        path.is_none() ==> r@ == server_default_path(*server),
{
    match path {
        Some(p) => p.clone(),
        None => server.get_default_path(),
    }
}

/// The outcome of each file of a batch, in order, and whether the batch goes
/// on after a failure.
pub struct Batch {
    files: Vec<String>,
    outcomes: Vec<Result<(), TransferError>>,
    continue_on_error: bool,
    stopped: bool,
}

impl Batch {
    pub closed spec fn files(&self) -> Seq<String> {
        self.files@
    }

    pub closed spec fn outcomes(&self) -> Seq<Result<(), TransferError>> {
        self.outcomes@
    }

    pub closed spec fn continues_on_error(&self) -> bool {
        self.continue_on_error
    }

    /// Whether a failure has ended the batch early.
    pub closed spec fn stopped(&self) -> bool {
        self.stopped
    }

    pub closed spec fn wf(&self) -> bool {
        &&& self.outcomes@.len() <= self.files@.len()
        &&& self.continue_on_error ==> !self.stopped
    }

    /// The index of the file to transfer next, if any.
    pub open spec fn next_spec(&self) -> Option<int> {
        if self.stopped() || self.outcomes().len() >= self.files().len() {
            None
        } else {
            Some(self.outcomes().len() as int)
        }
    }

    /// A batch over `files` that has not started.
    pub fn new(files: Vec<String>, continue_on_error: bool) -> (r: Batch)
        ensures
            r.wf(),
            r.files() == files@,
            r.outcomes().len() == 0,
            r.continues_on_error() == continue_on_error,
            !r.stopped(),
    {
        Batch { files, outcomes: Vec::new(), continue_on_error, stopped: false }
    }

    /// The index of the file to transfer next, if any.
    pub fn next_file(&self) -> (r: Option<usize>)
        requires
            self.wf(),
        ensures
            r.is_some() == self.next_spec().is_some(),
            r.is_some() ==> r.unwrap() as int == self.next_spec().unwrap() && r.unwrap()
                < self.files().len(),
    {
        if self.stopped || self.outcomes.len() >= self.files.len() {
            None
        } else {
            Some(self.outcomes.len())
        }
    }

    /// The path of file `i`.
    pub fn file(&self, i: usize) -> (r: &String)
        requires
            i < self.files().len(),
        ensures
            *r == self.files()[i as int],
    {
        &self.files[i]
    }

    /// Records the outcome of the file that `next_file` named.
    pub fn record(&mut self, outcome: Result<(), TransferError>)
        requires
            old(self).wf(),
            old(self).next_spec().is_some(),
        ensures
            final(self).wf(),
            final(self).files() == old(self).files(),
            final(self).outcomes() == old(self).outcomes().push(outcome),
            final(self).continues_on_error() == old(self).continues_on_error(),
            final(self).stopped() == (outcome.is_err() && !old(self).continues_on_error()),
    {
        self.stopped = outcome.is_err() && !self.continue_on_error;
        self.outcomes.push(outcome);
    }

    /// The outcomes recorded so far, one per file, in order.
    pub fn outcomes_so_far(&self) -> (r: &Vec<Result<(), TransferError>>)
        ensures
            r@ == self.outcomes(),
    {
        &self.outcomes
    }

    /// Whether some file has failed.
    pub fn any_failed(&self) -> (r: bool)
        ensures
            r == exists|i: int| 0 <= i < self.outcomes().len() && (#[trigger] self.outcomes()[i]).is_err(),
    {
        let mut i: usize = 0;
        while i < self.outcomes.len()
            invariant
                i <= self.outcomes@.len(),
                forall|j: int| 0 <= j < i ==> !(#[trigger] self.outcomes@[j]).is_err(),
            decreases self.outcomes@.len() - i,
        {
            if self.outcomes[i].is_err() {
                return true;
            }
            i = i + 1;
        }
        false
    }
}

/// A batch that goes on after errors offers every file in turn, whatever the
/// earlier files' outcomes: after the outcomes of the first k files, the next
/// file is file k, failed or not.
pub proof fn lemma_batch_continues(b: Batch, outcome: Result<(), TransferError>, b2: Batch)
    requires
        b.wf(),
        b.continues_on_error(),
        b.next_spec().is_some(),
        b2.files() == b.files(),
        b2.outcomes() == b.outcomes().push(outcome),
        b2.continues_on_error() == b.continues_on_error(),
        b2.stopped() == (outcome.is_err() && !b.continues_on_error()),
    ensures
        b.next_spec() == Some(b.outcomes().len() as int),
        b2.outcomes().len() < b2.files().len() ==> b2.next_spec() == Some(
            b.outcomes().len() + 1 as int,
        ),
{
}

} // verus!
