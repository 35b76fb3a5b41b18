//! How a batch of uploads goes on after each answer of the index.
//!
//! The artifacts are uploaded one at a time, in the order given. The caller
//! does the work that [`Batch::next_action`] names and reports what came of
//! it; the batch decides what follows.

use vstd::prelude::*;
use vstd::string::StringExecFns;
use crate::response::{
    classification, outcome_result, ErrorModel, OutcomeModel, UploadError, result_view,
};

verus! {

/// What follows from the result of one upload.
#[derive(Debug, Clone, Copy, PartialEq, Eq, Structural)]
pub enum Verdict {
    /// The file was uploaded: go on.
    Continue,
    /// The index holds the file already and that is acceptable: go on.
    Skip,
    /// The credentials were refused: clean up and stop.
    AbortBadCredentials,
    /// Stop, and report the artifact.
    Abort,
}

/// The verdict on a result: success goes on; refused credentials stop the
/// batch in their own way; a file that exists already is passed over where
/// that was asked for; everything else stops the batch.
pub open spec fn verdict_of(result: Result<(), ErrorModel>, skip_existing: bool) -> Verdict {
    match result {
        Ok(()) => Verdict::Continue,
        Err(ErrorModel::AuthenticationError) => Verdict::AbortBadCredentials,
        Err(ErrorModel::FileExistsError(_)) => if skip_existing {
            Verdict::Skip
        } else {
            Verdict::Abort
        },
        Err(_) => Verdict::Abort,
    }
}

/// Decides what follows from the result of one upload.
pub fn decide(result: &Result<(), UploadError>, skip_existing: bool) -> (v: Verdict)
    ensures
        v == verdict_of(result_view(*result), skip_existing),
{
    match result {
        Ok(()) => Verdict::Continue,
        Err(UploadError::AuthenticationError) => Verdict::AbortBadCredentials,
        Err(UploadError::FileExistsError(_)) => if skip_existing {
            Verdict::Skip
        } else {
            Verdict::Abort
        },
        Err(_) => Verdict::Abort,
    }
}

/// The verdict on an answer of the index follows its classification: an
/// accepted file goes on, refused credentials stop the batch in their own
/// way, a file that exists already is passed over exactly where that was
/// asked for, and any other answer stops the batch.
pub proof fn lemma_verdict_of_classification(status: u16, body: Seq<char>, skip_existing: bool)
    ensures
        ({
            let outcome = classification(status, body);
            let verdict = verdict_of(outcome_result(outcome), skip_existing);
            &&& outcome is Success <==> verdict is Continue
            &&& outcome is AuthenticationFailed <==> verdict is AbortBadCredentials
            &&& outcome is AlreadyExists && skip_existing <==> verdict is Skip
            &&& (outcome is AlreadyExists && !skip_existing) || outcome is ServerError
                <==> verdict is Abort
        }),
{
}

/// Where a batch stands.
#[derive(Debug, Clone, Copy, PartialEq, Eq, Structural)]
pub enum Phase {
    /// The artifact at the batch's position is to be uploaded.
    Uploading,
    /// Every artifact was uploaded or passed over.
    Succeeded,
    /// The credentials were refused at the batch's position; the stored
    /// password is still to be removed.
    BadCredentials,
    /// The credentials were refused, and the removal was attempted.
    Rejected,
    /// The upload at the batch's position failed for another reason.
    Failed,
}

/// What the caller has to do next.
#[derive(Debug, Clone, Copy, PartialEq, Eq, Structural)]
pub enum Action {
    /// Upload the artifact with this index and report the result.
    Upload(usize),
    /// Remove the stored password of the username and report what came of
    /// it.
    DeleteStoredPassword,
    /// Store the password under the username and report success.
    StorePassword,
    /// Report that the credentials are wrong.
    ReportBadCredentials,
    /// Report that the artifact with this index could not be uploaded.
    ReportFailure(usize),
}

/// A batch of uploads in progress.
#[derive(Debug, Clone, PartialEq, Eq)]
pub struct Batch {
    /// The number of artifacts.
    pub count: usize,
    /// Whether a file that exists already is passed over.
    pub skip_existing: bool,
    /// The artifacts before this index were uploaded or passed over.
    pub position: usize,
    /// The indices of the artifacts that were passed over, ascending.
    pub skipped: Vec<usize>,
    /// Where the batch stands.
    pub phase: Phase,
}

/// The mathematical value of a [`Batch`].
pub struct BatchModel {
    pub count: nat,
    pub skip_existing: bool,
    pub position: nat,
    pub skipped: Seq<nat>,
    pub phase: Phase,
}

impl View for Batch {
    type V = BatchModel;

    open spec fn view(&self) -> BatchModel {
        BatchModel {
            count: self.count as nat,
            skip_existing: self.skip_existing,
            position: self.position as nat,
            skipped: self.skipped@.map_values(|i: usize| i as nat),
            phase: self.phase,
        }
    }
}

impl BatchModel {
    /// The position lies within the batch, at its end exactly when the
    /// batch has succeeded; what was passed over lies before the position,
    /// in ascending order.
    pub open spec fn wf(self) -> bool {
        &&& self.phase is Succeeded ==> self.position == self.count
        &&& !(self.phase is Succeeded) ==> self.position < self.count
        &&& forall|i: int| 0 <= i < self.skipped.len() ==> #[trigger] self.skipped[i] < self.position
        &&& forall|i: int, j: int|
            0 <= i < j < self.skipped.len() ==> #[trigger] self.skipped[i] < #[trigger] self.skipped[j]
    }

    /// A batch of `count` artifacts before its first upload.
    pub open spec fn start(count: nat, skip_existing: bool) -> BatchModel {
        BatchModel {
            count,
            skip_existing,
            position: 0,
            skipped: Seq::empty(),
            phase: if count == 0 {
                Phase::Succeeded
            } else {
                Phase::Uploading
            },
        }
    }

    /// The batch moved past the artifact at its position.
    pub open spec fn advanced(self) -> BatchModel {
        BatchModel {
            position: self.position + 1,
            phase: if self.position + 1 == self.count {
                Phase::Succeeded
            } else {
                Phase::Uploading
            },
            ..self
        }
    }

    /// The batch after a verdict on the artifact at its position. A batch
    /// that is not uploading stays as it is: after a failure nothing more
    /// is uploaded.
    pub open spec fn after(self, verdict: Verdict) -> BatchModel {
        if !(self.phase is Uploading) {
            self
        } else {
            match verdict {
                Verdict::Continue => self.advanced(),
                Verdict::Skip => BatchModel {
                    skipped: self.skipped.push(self.position),
                    ..self.advanced()
                },
                Verdict::AbortBadCredentials => BatchModel { phase: Phase::BadCredentials, ..self },
                Verdict::Abort => BatchModel { phase: Phase::Failed, ..self },
            }
        }
    }

    /// The batch after a run of verdicts, one for each upload reported, in
    /// the order of the reports.
    pub open spec fn after_all(self, verdicts: Seq<Verdict>) -> BatchModel
        decreases verdicts.len(),
    {
        if verdicts.len() == 0 {
            self
        } else {
            self.after_all(verdicts.drop_last()).after(verdicts.last())
        }
    }

    /// The batch after the removal of the stored password was attempted,
    /// whatever came of it.
    pub open spec fn after_deletion(self) -> BatchModel {
        if self.phase is BadCredentials {
            BatchModel { phase: Phase::Rejected, ..self }
        } else {
            self
        }
    }

    /// What the caller has to do next.
    pub open spec fn next_action(self) -> Action {
        match self.phase {
            Phase::Uploading => Action::Upload(self.position as usize),
            Phase::Succeeded => Action::StorePassword,
            Phase::BadCredentials => Action::DeleteStoredPassword,
            Phase::Rejected => Action::ReportBadCredentials,
            Phase::Failed => Action::ReportFailure(self.position as usize),
        }
    }
}

impl Batch {
    /// Starts a batch of `count` artifacts.
    pub fn new(count: usize, skip_existing: bool) -> (b: Batch)
        ensures
            b@ == BatchModel::start(count as nat, skip_existing),
            b@.wf(),
    {
        let b = Batch {
            count,
            skip_existing,
            position: 0,
            skipped: Vec::new(),
            phase: if count == 0 {
                Phase::Succeeded
            } else {
                Phase::Uploading
            },
        };
        assert(b@.skipped =~= Seq::<nat>::empty());
        b
    }

    /// Says what the caller has to do next.
    pub fn next_action(&self) -> (a: Action)
        requires
            self@.wf(),
        ensures
            a == self@.next_action(),
            a matches Action::Upload(i) ==> i < self.count,
            a matches Action::ReportFailure(i) ==> i < self.count,
    {
        match self.phase {
            Phase::Uploading => Action::Upload(self.position),
            Phase::Succeeded => Action::StorePassword,
            Phase::BadCredentials => Action::DeleteStoredPassword,
            Phase::Rejected => Action::ReportBadCredentials,
            Phase::Failed => Action::ReportFailure(self.position),
        }
    }

    /// Takes in the result of the upload of the artifact at the position.
    pub fn record(&mut self, result: &Result<(), UploadError>)
        requires
            old(self)@.wf(),
        ensures
            final(self)@ == old(self)@.after(
                verdict_of(result_view(*result), old(self).skip_existing),
            ),
            final(self)@.wf(),
    {
        let ghost before = self@;
        match self.phase {
            Phase::Uploading => {},
            _ => {
                return ;
            },
        }
        let verdict = decide(result, self.skip_existing);
        match verdict {
            Verdict::Continue => {
                self.advance();
            },
            Verdict::Skip => {
                self.skipped.push(self.position);
                assert(self@.skipped =~= before.skipped.push(before.position));
                self.advance();
            },
            Verdict::AbortBadCredentials => {
                self.phase = Phase::BadCredentials;
            },
            Verdict::Abort => {
                self.phase = Phase::Failed;
            },
        }
    }

    fn advance(&mut self)
        requires
            old(self).position < old(self).count,
        ensures
            final(self)@ == old(self)@.advanced(),
            final(self).skipped == old(self).skipped,
    {
        self.position = self.position + 1;
        self.phase = if self.position == self.count {
            Phase::Succeeded
        } else {
            Phase::Uploading
        };
    }

    /// Takes in that the removal of the stored password was attempted.
    /// Whether it went through makes no difference to the batch.
    pub fn record_deletion(&mut self, deletion: &Result<(), SecretStoreError>)
        requires
            old(self)@.wf(),
        ensures
            final(self)@ == old(self)@.after_deletion(),
            final(self)@.wf(),
    {
        match self.phase {
            Phase::BadCredentials => {
                self.phase = Phase::Rejected;
            },
            _ => {},
        }
    }
}

/// After a failure nothing more is uploaded: whatever is reported to a
/// batch that is no longer uploading, it stays as it is and never asks for
/// another upload.
pub proof fn lemma_stopped_batch_stays_stopped(batch: BatchModel, verdict: Verdict)
    requires
        !(batch.phase is Uploading),
    ensures
        batch.after(verdict) == batch,
        !(batch.after(verdict).next_action() is Upload),
{
}

/// Each upload that is asked for is that of the artifact which follows
/// the ones uploaded or passed over so far, and a verdict to go on moves
/// the batch by exactly one artifact.
pub proof fn lemma_batch_goes_in_order(batch: BatchModel, verdict: Verdict)
    requires
        batch.wf(),
        batch.phase is Uploading,
    ensures
        batch.next_action() == Action::Upload(batch.position as usize),
        batch.after(verdict).wf(),
        verdict is Continue || verdict is Skip ==> batch.after(verdict).position == batch.position
            + 1,
        verdict is AbortBadCredentials || verdict is Abort ==> batch.after(verdict).position
            == batch.position && !(batch.after(verdict).next_action() is Upload),
{
}

/// The verdict lets the batch go on to the next artifact.
pub open spec fn goes_on(verdict: Verdict) -> bool {
    verdict is Continue || verdict is Skip
}

/// While every verdict lets the batch go on, the batch has moved past as
/// many artifacts as there were verdicts, and has passed over exactly
/// those whose verdict was to skip.
pub proof fn lemma_batch_progress(count: nat, skip_existing: bool, verdicts: Seq<Verdict>)
    requires
        verdicts.len() <= count,
        forall|i: int| 0 <= i < verdicts.len() ==> goes_on(#[trigger] verdicts[i]),
    ensures
        ({
            let b = BatchModel::start(count, skip_existing).after_all(verdicts);
            &&& b.wf()
            &&& b.count == count
            &&& b.skip_existing == skip_existing
            &&& b.position == verdicts.len()
            &&& b.phase is Succeeded <==> verdicts.len() == count
            &&& b.phase is Uploading <==> verdicts.len() < count
            &&& forall|i: nat|
                b.skipped.contains(i) <==> i < verdicts.len() && verdicts[i as int] is Skip
        }),
    decreases verdicts.len(),
{
    let b = BatchModel::start(count, skip_existing).after_all(verdicts);
    if verdicts.len() > 0 {
        let front = verdicts.drop_last();
        lemma_batch_progress(count, skip_existing, front);
        let a = BatchModel::start(count, skip_existing).after_all(front);
        assert(b == a.after(verdicts.last()));
        assert(goes_on(verdicts[verdicts.len() - 1]));
        assert forall|i: nat|
            b.skipped.contains(i) <==> i < verdicts.len() && verdicts[i as int] is Skip by {
            if i < front.len() {
                assert(front[i as int] == verdicts[i as int]);
            }
            if verdicts.last() is Skip {
                assert(b.skipped == a.skipped.push(a.position));
                assert(b.skipped[a.skipped.len() as int] == a.position);
                if a.skipped.contains(i) {
                    let j = choose|j: int| 0 <= j < a.skipped.len() && a.skipped[j] == i;
                    assert(b.skipped[j] == i);
                }
            } else {
                assert(b.skipped == a.skipped);
            }
        }
    } else {
        assert(b.skipped =~= Seq::<nat>::empty());
    }
}

/// A batch in which no upload fails succeeds: once every artifact has had
/// a verdict that lets the batch go on, the password is to be stored.
pub proof fn lemma_batch_without_failure_succeeds(
    count: nat,
    skip_existing: bool,
    verdicts: Seq<Verdict>,
)
    requires
        verdicts.len() == count,
        forall|i: int| 0 <= i < verdicts.len() ==> goes_on(#[trigger] verdicts[i]),
    ensures
        BatchModel::start(count, skip_existing).after_all(verdicts).next_action()
            == Action::StorePassword,
{
    lemma_batch_progress(count, skip_existing, verdicts);
}

/// The first upload that fails ends the batch: the batch stays at that
/// artifact, whatever is reported afterwards, and no later artifact is
/// uploaded. A failure other than refused credentials is reported for
/// that artifact.
pub proof fn lemma_first_failure_ends_the_batch(
    count: nat,
    skip_existing: bool,
    verdicts: Seq<Verdict>,
    k: int,
)
    requires
        0 <= k < verdicts.len(),
        k < count,
        count <= usize::MAX,
        forall|i: int| 0 <= i < k ==> goes_on(#[trigger] verdicts[i]),
        !goes_on(verdicts[k]),
    ensures
        ({
            let b = BatchModel::start(count, skip_existing).after_all(verdicts);
            &&& b.position == k
            &&& !(b.next_action() is Upload)
            &&& verdicts[k] is Abort ==> b.next_action() == Action::ReportFailure(k as usize)
            &&& verdicts[k] is AbortBadCredentials ==> b.next_action()
                == Action::DeleteStoredPassword
            &&& forall|i: nat| b.skipped.contains(i) <==> i < k && verdicts[i as int] is Skip
        }),
    decreases verdicts.len(),
{
    let front = verdicts.drop_last();
    if verdicts.len() == k + 1 {
        lemma_batch_progress(count, skip_existing, front);
        assert forall|i: nat| i < k implies front[i as int] == verdicts[i as int] by {}
    } else {
        assert(front[k] == verdicts[k]);
        assert forall|i: int| 0 <= i < k implies goes_on(#[trigger] front[i]) by {
            assert(front[i] == verdicts[i]);
        }
        lemma_first_failure_ends_the_batch(count, skip_existing, front, k);
    }
}

/// Refused credentials end the batch by way of the secret store: the
/// removal of the stored password is asked for first, and only after it
/// was attempted is the refusal reported, whatever came of the attempt.
pub proof fn lemma_refused_credentials_clean_up_first(batch: BatchModel)
    requires
        batch.wf(),
        batch.phase is Uploading,
    ensures
        batch.after(Verdict::AbortBadCredentials).next_action() == Action::DeleteStoredPassword,
        batch.after(Verdict::AbortBadCredentials).after_deletion().next_action()
            == Action::ReportBadCredentials,
        batch.after(Verdict::AbortBadCredentials).after_deletion().wf(),
{
}

/// Why the secret store did not do what it was asked.
#[derive(Debug, Clone, Copy, PartialEq, Eq, Structural)]
pub enum SecretStoreError {
    /// There is no entry for the username.
    NoEntry,
    /// The store cannot be reached.
    NoStorageAccess,
    /// The platform under the store failed.
    PlatformFailure,
    /// Any other failure.
    Other,
}

/// A failed removal is worth a warning unless there was nothing to remove
/// or no store to remove it from.
pub open spec fn deletion_warrants_warning(result: Result<(), SecretStoreError>) -> bool {
    match result {
        Ok(()) => false,
        Err(SecretStoreError::NoEntry) => false,
        Err(SecretStoreError::NoStorageAccess) => false,
        Err(_) => true,
    }
}

/// A failure to store is worth a warning unless there is no store.
pub open spec fn storing_warrants_warning(result: Result<(), SecretStoreError>) -> bool {
    match result {
        Ok(()) => false,
        Err(SecretStoreError::NoStorageAccess) => false,
        Err(_) => true,
    }
}

/// Says whether the user is warned after the attempt to remove a refused
/// password from the secret store.
pub fn warn_after_deletion(result: &Result<(), SecretStoreError>) -> (warn: bool)
    ensures
        warn == deletion_warrants_warning(*result),
{
    match result {
        Ok(()) => false,
        Err(SecretStoreError::NoEntry) => false,
        Err(SecretStoreError::NoStorageAccess) => false,
        Err(_) => true,
    }
}

/// Says whether the user is warned after the attempt to store the password
/// of a batch that went through.
pub fn warn_after_storing(result: &Result<(), SecretStoreError>) -> (warn: bool)
    ensures
        warn == storing_warrants_warning(*result),
{
    match result {
        Ok(()) => false,
        Err(SecretStoreError::NoStorageAccess) => false,
        Err(_) => true,
    }
}

/// `bytesize::ByteSize`'s `Display`: a size in bytes in a form for people.
/// The digits are rounded by the machine's floating point, so nothing is
/// stated of the text.
#[verifier::external_body]
fn display_size(bytes: u64) -> (r: String) {
    bytesize::ByteSize(bytes).to_string()
}

/// The line that reports an artifact that could not be uploaded, from its
/// quoted name and the text of its size.
pub open spec fn failure_text(quoted_name: Seq<char>, size: Seq<char>) -> Seq<char> {
    "💥 Failed to upload "@ + quoted_name + " ("@ + size + ")"@
}

/// Builds the line that reports an artifact that could not be uploaded.
pub fn failure_message(quoted_name: &str, size: &str) -> (r: String)
    ensures
        r@ == failure_text(quoted_name@, size@),
{
    "💥 Failed to upload ".to_owned().concat(quoted_name).concat(" (").concat(size).concat(")")
}

/// Builds the line that reports an artifact of `bytes` bytes that could
/// not be uploaded.
pub fn describe_failure(quoted_name: &str, bytes: u64) -> (r: String)
    ensures
        exists|size: Seq<char>| r@ == failure_text(quoted_name@, size),
{
    let size = display_size(bytes);
    failure_message(quoted_name, size.as_str())
}

} // verus!
