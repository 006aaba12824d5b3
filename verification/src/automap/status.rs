//! The errors of a router conversation and the running status of a protocol test.

use vstd::prelude::*;
use crate::net::SocketAddress;

verus! {

/// What can go wrong while talking to a router.
#[derive(Clone, Debug, PartialEq, Eq)]
pub enum AutomapError {
    /// No router could be found on the subnet.
    FindRouterError(String),
    /// The router did not tell its public IP address.
    GetPublicIpError(String),
    /// A local socket could not be bound to the given address.
    SocketBindingError(String, SocketAddress),
    /// The router answered in a way the protocol does not allow.
    ProtocolError(String),
    /// The router refused to add a mapping, with its reason.
    AddMappingError(String),
    /// The router keeps only mappings without a lifetime.
    PermanentLeasesOnly,
    /// The router refused to delete a mapping, with its reason.
    DeleteMappingError(String),
}

/// The reason an IGDP router gives when it refuses mappings with a lifetime.
pub open spec fn only_permanent_reason() -> Seq<char> {
    "OnlyPermanentLeasesSupported"@
}

/// Whether `e` is an IGDP refusal of a mapping with a lifetime.
pub open spec fn refuses_temporary_leases(e: AutomapError) -> bool {
    match e {
        AutomapError::AddMappingError(reason) => reason@ == only_permanent_reason(),
        _ => false,
    }
}

impl AutomapError {
    /// Whether this is the refusal that an IGDP router gives to a mapping with a lifetime.
    pub fn is_temporary_lease_refusal(&self) -> (r: bool)
        ensures
            r == refuses_temporary_leases(*self),
    {
        match self {
            AutomapError::AddMappingError(reason) => {
                let expected = "OnlyPermanentLeasesSupported".to_owned();
                *reason == expected
            },
            _ => false,
        }
    }
}

/// The running record of a protocol test: the number of the next step,
/// how the last step went, whether every step so far went well, and whether
/// the test cannot go on.
pub struct TestStatus {
    pub step: usize,
    pub step_success: bool,
    pub step_error: Option<AutomapError>,
    pub cumulative_success: bool,
    pub fatal: bool,
    pub permanent_only: Option<bool>,
}

impl TestStatus {
    /// A failed step has its error recorded, and a successful one has none;
    /// steps are counted from one.
    pub open spec fn wf(self) -> bool {
        &&& self.step >= 1
        &&& (self.step_success <==> self.step_error is None)
    }

    /// The status before the first step.
    pub open spec fn initial() -> TestStatus {
        TestStatus {
            step: 1,
            step_success: true,
            step_error: None,
            cumulative_success: true,
            fatal: false,
            permanent_only: None,
        }
    }

    /// The status after a step that went well.
    pub open spec fn succeeded(self) -> TestStatus {
        TestStatus {
            step: (self.step + 1) as usize,
            step_success: true,
            step_error: None,
            cumulative_success: self.cumulative_success,
            fatal: false,
            permanent_only: self.permanent_only,
        }
    }

    /// The status after a step that failed with `error`, where the test may go on.
    pub open spec fn failed(self, error: AutomapError) -> TestStatus {
        TestStatus {
            step: (self.step + 1) as usize,
            step_success: false,
            step_error: Some(error),
            cumulative_success: false,
            fatal: false,
            permanent_only: self.permanent_only,
        }
    }

    /// The status after a step that failed with `error` so that the test cannot go on.
    pub open spec fn aborted(self, error: AutomapError) -> TestStatus {
        TestStatus {
            step: (self.step + 1) as usize,
            step_success: false,
            step_error: Some(error),
            cumulative_success: false,
            fatal: true,
            permanent_only: self.permanent_only,
        }
    }

    /// The same status, noting whether the router keeps only permanent mappings.
    pub open spec fn with_permanent_only(self, permanent_only: bool) -> TestStatus {
        TestStatus { permanent_only: Some(permanent_only), ..self }
    }

    /// The status before the first step.
    pub fn new() -> (r: TestStatus)
        ensures
            r == TestStatus::initial(),
            r.wf(),
    {
        TestStatus {
            step: 1,
            step_success: true,
            step_error: None,
            cumulative_success: true,
            fatal: false,
            permanent_only: None,
        }
    }

    /// The status after a step that went well.
    pub fn succeed(self) -> (r: TestStatus)
        requires
            self.step < usize::MAX,
        ensures
            r == self.succeeded(),
            self.wf() ==> r.wf(),
    {
        TestStatus {
            step: self.step + 1,
            step_success: true,
            step_error: None,
            cumulative_success: self.cumulative_success,
            fatal: false,
            permanent_only: self.permanent_only,
        }
    }

    /// The status after a step that failed with `error`; the test may go on.
    pub fn fail(self, error: AutomapError) -> (r: TestStatus)
        requires
            self.step < usize::MAX,
        ensures
            r == self.failed(error),
            self.wf() ==> r.wf(),
    {
        TestStatus {
            step: self.step + 1,
            step_success: false,
            step_error: Some(error),
            cumulative_success: false,
            fatal: false,
            permanent_only: self.permanent_only,
        }
    }

    /// The status after a step that failed with `error` so that the test cannot go on.
    pub fn abort(self, error: AutomapError) -> (r: TestStatus)
        requires
            self.step < usize::MAX,
        ensures
            r == self.aborted(error),
            self.wf() ==> r.wf(),
    {
        TestStatus {
            step: self.step + 1,
            step_success: false,
            step_error: Some(error),
            cumulative_success: false,
            fatal: true,
            permanent_only: self.permanent_only,
        }
    }

    /// The same status, noting whether the router keeps only permanent mappings.
    pub fn permanent_only(self, permanent_only: bool) -> (r: TestStatus)
        ensures
            r == self.with_permanent_only(permanent_only),
            self.wf() ==> r.wf(),
    {
        TestStatus {
            step: self.step,
            step_success: self.step_success,
            step_error: self.step_error,
            cumulative_success: self.cumulative_success,
            fatal: self.fatal,
            permanent_only: Some(permanent_only),
        }
    }
}

/// A call that updates a test status.
pub enum StatusUpdate {
    Succeed,
    Fail(AutomapError),
    Abort(AutomapError),
    PermanentOnly(bool),
}

/// Whether a call ends a step (and so counts one).
pub open spec fn ends_step(update: StatusUpdate) -> bool {
    !(update is PermanentOnly)
}

/// Whether a call records a failed step.
pub open spec fn records_failure(update: StatusUpdate) -> bool {
    update is Fail || update is Abort
}

/// The status after one call.
pub open spec fn apply_update(status: TestStatus, update: StatusUpdate) -> TestStatus {
    match update {
        StatusUpdate::Succeed => status.succeeded(),
        StatusUpdate::Fail(e) => status.failed(e),
        StatusUpdate::Abort(e) => status.aborted(e),
        StatusUpdate::PermanentOnly(b) => status.with_permanent_only(b),
    }
}

/// The status after a sequence of calls, first call first.
pub open spec fn apply_updates(status: TestStatus, updates: Seq<StatusUpdate>) -> TestStatus
    decreases updates.len(),
{
    if updates.len() == 0 {
        status
    } else {
        apply_updates(apply_update(status, updates[0]), updates.drop_first())
    }
}

/// How many calls of a sequence end a step.
pub open spec fn steps_ended(updates: Seq<StatusUpdate>) -> nat
    decreases updates.len(),
{
    if updates.len() == 0 {
        0
    } else {
        (if ends_step(updates[0]) { 1nat } else { 0nat }) + steps_ended(updates.drop_first())
    }
}

/// Over any sequence of `succeed`, `fail`, `abort` and `permanent_only`
/// calls: the test is still successful exactly when it was before and no call
/// recorded a failure (nothing turns a failure back into success); the step
/// count grows by one for each `succeed`, `fail` and `abort`; and a failed
/// step keeps its error recorded throughout.
pub proof fn status_updates_law(status: TestStatus, updates: Seq<StatusUpdate>)
    requires
        status.step + updates.len() <= usize::MAX,
    ensures
        apply_updates(status, updates).cumulative_success
            <==> (status.cumulative_success && forall|i: int| 0 <= i < updates.len() ==> !records_failure(#[trigger] updates[i])),
        apply_updates(status, updates).step == status.step + steps_ended(updates),
        status.wf() ==> apply_updates(status, updates).wf(),
    decreases updates.len(),
{
    if updates.len() > 0 {
        let next = apply_update(status, updates[0]);
        let rest = updates.drop_first();
        status_updates_law(next, rest);
        assert forall|i: int| 0 <= i < rest.len() implies rest[i] == updates[i + 1] by {}
        if status.cumulative_success && forall|i: int| 0 <= i < updates.len() ==> !records_failure(#[trigger] updates[i]) {
            assert(!records_failure(updates[0]));
            assert forall|i: int| 0 <= i < rest.len() implies !records_failure(#[trigger] rest[i]) by {
                assert(!records_failure(updates[i + 1]));
            }
        }
        if next.cumulative_success && forall|i: int| 0 <= i < rest.len() ==> !records_failure(#[trigger] rest[i]) {
            assert forall|i: int| 0 <= i < updates.len() implies !records_failure(#[trigger] updates[i]) by {
                if i > 0 {
                    assert(!records_failure(rest[i - 1]));
                }
            }
        }
    }
}

/// The error that a call records for its step, if any.
pub open spec fn update_error(update: StatusUpdate) -> Option<AutomapError> {
    match update {
        StatusUpdate::Fail(e) => Some(e),
        StatusUpdate::Abort(e) => Some(e),
        _ => None,
    }
}

/// Over any sequence of calls: how the last step went is told by the last
/// call that ends a step (successful for `succeed`, failed with its error
/// otherwise, and fatal only for `abort`); where no call ends a step, the
/// status keeps how its last step went.
pub proof fn status_last_step_law(status: TestStatus, updates: Seq<StatusUpdate>)
    ensures
        ({
            let last = apply_updates(status, updates);
            &&& forall|i: int| 0 <= i < updates.len() && ends_step(#[trigger] updates[i])
                && (forall|j: int| i < j < updates.len() ==> !ends_step(#[trigger] updates[j])) ==> {
                &&& (last.step_success <==> updates[i] is Succeed)
                &&& last.step_error == update_error(updates[i])
                &&& (last.fatal <==> updates[i] is Abort)
            }
            &&& (forall|i: int| 0 <= i < updates.len() ==> !ends_step(#[trigger] updates[i])) ==> {
                &&& last.step_success == status.step_success
                &&& last.step_error == status.step_error
                &&& last.fatal == status.fatal
            }
        }),
    decreases updates.len(),
{
    if updates.len() > 0 {
        let next = apply_update(status, updates[0]);
        let rest = updates.drop_first();
        status_last_step_law(next, rest);
        let last = apply_updates(status, updates);
        assert(last == apply_updates(next, rest));
        assert forall|i: int| 0 <= i < updates.len() && ends_step(#[trigger] updates[i])
            && (forall|j: int| i < j < updates.len() ==> !ends_step(#[trigger] updates[j])) implies {
            &&& (last.step_success <==> updates[i] is Succeed)
            &&& last.step_error == update_error(updates[i])
            &&& (last.fatal <==> updates[i] is Abort)
        } by {
            assert forall|j: int| i <= j < rest.len() implies !ends_step(#[trigger] rest[j]) by {
                assert(rest[j] == updates[j + 1]);
            }
            if i > 0 {
                assert(rest[i - 1] == updates[i]);
            }
        }
        if forall|i: int| 0 <= i < updates.len() ==> !ends_step(#[trigger] updates[i]) {
            assert(!ends_step(updates[0]));
            assert forall|j: int| 0 <= j < rest.len() implies !ends_step(#[trigger] rest[j]) by {
                assert(rest[j] == updates[j + 1]);
            }
        }
    }
}

/// Over any sequence of calls: what is noted of permanent mappings is told
/// by the last `permanent_only` call; where there is none, the status keeps
/// what it had.
pub proof fn status_last_permanent_only_law(status: TestStatus, updates: Seq<StatusUpdate>)
    ensures
        ({
            let last = apply_updates(status, updates);
            &&& forall|i: int| 0 <= i < updates.len() && (#[trigger] updates[i]) is PermanentOnly
                && (forall|j: int| i < j < updates.len() ==> !(#[trigger] updates[j] is PermanentOnly))
                ==> last.permanent_only == Some(updates[i]->PermanentOnly_0)
            &&& (forall|i: int| 0 <= i < updates.len() ==> !(#[trigger] updates[i] is PermanentOnly))
                ==> last.permanent_only == status.permanent_only
        }),
    decreases updates.len(),
{
    if updates.len() > 0 {
        let next = apply_update(status, updates[0]);
        let rest = updates.drop_first();
        status_last_permanent_only_law(next, rest);
        let last = apply_updates(status, updates);
        assert(last == apply_updates(next, rest));
        assert forall|i: int| 0 <= i < updates.len() && (#[trigger] updates[i]) is PermanentOnly
            && (forall|j: int| i < j < updates.len() ==> !(#[trigger] updates[j] is PermanentOnly))
            implies last.permanent_only == Some(updates[i]->PermanentOnly_0) by {
            assert forall|j: int| i <= j < rest.len() implies !(#[trigger] rest[j] is PermanentOnly) by {
                assert(rest[j] == updates[j + 1]);
            }
            if i > 0 {
                assert(rest[i - 1] == updates[i]);
            }
        }
        if forall|i: int| 0 <= i < updates.len() ==> !(#[trigger] updates[i] is PermanentOnly) {
            assert(!(updates[0] is PermanentOnly));
            assert forall|j: int| 0 <= j < rest.len() implies !(#[trigger] rest[j] is PermanentOnly) by {
                assert(rest[j] == updates[j + 1]);
            }
        }
    }
}

} // verus!
