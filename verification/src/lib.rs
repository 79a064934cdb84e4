//! Elevation-check engine: decides whether a process token belongs to the
//! built-in administrators group, around native security primitives.
//!
//! The native calls themselves (security-identifier allocation, process
//! handles, the token-membership test) cannot be made from verified code;
//! every outcome they produce enters the library as plain values, and all
//! decisions taken on those values are verified here.

use vstd::prelude::*;

pub mod process_handler;

verus! {

/// Classification of a failed elevation query.
#[derive(Copy, Clone, Debug, PartialEq, Eq, Structural)]
pub enum ErrorType {
    NoError,
    Unknown,

    NotRenewed,
    OpenProcessFailed,
}

/// Error returned by a refused or failed elevation query: an optional native
/// error code, a fixed message and remediation tip, and the error kind.
#[derive(Clone, Debug, PartialEq)]
pub struct Error {
    pub code: u32,
    pub message: &'static str,
    pub tip: &'static str,
    pub etype: ErrorType,
}

impl Error {
    fn new(code: u32, message: &'static str, tip: &'static str, etype: ErrorType) -> (r: Self)
        ensures
            r == (Error { code, message, tip, etype }),
    {
        Self {
            code,
            message,
            tip,
            etype,
        }
    }

    /// The native error code, absent when no native call failed (0 means absent).
    pub fn get_code(&self) -> (r: Option<u32>)
        ensures
            r == (if self.code == 0 { None::<u32> } else { Some(self.code) }),
    {
        if self.code == 0 {
            return None;
        }

        Some(self.code)
    }

    /// The error kind, absent when the error carries none.
    pub fn get_type(&self) -> (r: Option<ErrorType>)
        ensures
            r == (if self.etype == ErrorType::NoError { None::<ErrorType> } else { Some(self.etype) }),
    {
        if self.etype == ErrorType::NoError {
            return None;
        }

        Some(self.etype)
    }
}

/// Boolean-like value the native security calls use for success / membership.
pub const NATIVE_TRUE: i32 = 1;

/// Boolean-like value the native security calls use for failure / no membership.
pub const NATIVE_FALSE: i32 = 0;

pub const NOT_RENEWED_MESSAGE: &'static str = "Checking elevation after cleanup!";

pub const NOT_RENEWED_TIP: &'static str = "Create new Elevation object or use renew() method after cleanup.";

pub const OPEN_PROCESS_MESSAGE: &'static str = "OpenProcess has failed!";

pub const OPEN_PROCESS_TIP: &'static str = "Check the error code for more details.";

/// What the native allocation of the administrators-group identifier handed
/// back: the raw status of the allocation call, the identifier handle, and
/// the address of the auxiliary buffer that staged it. The two handles are
/// opaque here; only the native side interprets them.
#[derive(Copy, Clone, Debug)]
pub struct SidAllocation {
    pub sid_result: i32,
    pub admins_group: usize,
    pub mem: usize,
}

/// What the native side of one query answered, as plain values:
/// `open_handle` is the process handle the open call returned (0 when it
/// failed or was never needed), `open_error` the native error code observed
/// at that moment, and `check_status` / `check_slot` the return value of the
/// membership test and the boolean-like result it wrote into the status slot.
#[derive(Copy, Clone, Debug)]
pub struct NativeOutcomes {
    pub open_handle: usize,
    pub open_error: u32,
    pub check_status: i32,
    pub check_slot: i32,
}

/// The elevation-check context: the status slot shared by the allocator and
/// the membership test, the opaque handle of the administrators-group
/// identifier, the opaque address of its auxiliary buffer, and the lifecycle
/// flag set by `cleanup`.
#[derive(Copy, Clone, Debug)]
pub struct Elevation {
    pub sid_result: i32,
    pub admins_group: usize,
    pub mem: usize,
    pub cleaned: bool,
}

/// The error a query on a released context returns.
pub open spec fn not_renewed_error() -> Error {
    Error {
        code: 0,
        message: NOT_RENEWED_MESSAGE,
        tip: NOT_RENEWED_TIP,
        etype: ErrorType::NotRenewed,
    }
}

/// The error a query returns when the target process could not be opened,
/// carrying the native code verbatim.
pub open spec fn open_process_error(native_code: u32) -> Error {
    Error {
        code: native_code,
        message: OPEN_PROCESS_MESSAGE,
        tip: OPEN_PROCESS_TIP,
        etype: ErrorType::OpenProcessFailed,
    }
}

/// Whether a query with target `pid` fails at the native open step.
pub open spec fn open_fails(pid: Option<u32>, os: NativeOutcomes) -> bool {
    pid is Some && os.open_handle == 0
}

/// The value of the shared status slot after the membership test ran: the
/// result it wrote, coerced to "not a member" when the call itself failed.
pub open spec fn slot_after_check(check_status: i32, check_slot: i32) -> i32 {
    if check_status == NATIVE_FALSE {
        NATIVE_FALSE
    } else {
        check_slot
    }
}

/// The context state after one query on state `st` with target `pid`, given
/// the native answers `os`. A refused query and one that failed to open its
/// target leave the state untouched; otherwise the membership test runs
/// exactly when the status slot records success, and overwrites that slot.
pub open spec fn query_state_after(st: Elevation, pid: Option<u32>, os: NativeOutcomes) -> Elevation {
    if st.cleaned || open_fails(pid, os) {
        st
    } else if st.sid_result == NATIVE_TRUE {
        Elevation {
            sid_result: slot_after_check(os.check_status, os.check_slot),
            admins_group: st.admins_group,
            mem: st.mem,
            cleaned: st.cleaned,
        }
    } else {
        st
    }
}

/// The result of one query on state `st` with target `pid`, given the native
/// answers `os`: refusal on a released context, the open failure when the
/// target could not be opened, and otherwise the final value of the status
/// slot read as a boolean.
pub open spec fn query_result(st: Elevation, pid: Option<u32>, os: NativeOutcomes) -> Result<bool, Error> {
    if st.cleaned {
        Err(not_renewed_error())
    } else if open_fails(pid, os) {
        Err(open_process_error(os.open_error))
    } else {
        Ok(query_state_after(st, pid, os).sid_result == NATIVE_TRUE)
    }
}

/// One step of a query session: either the session is over, or the native
/// side must perform the named call and feed its outcome back into the next
/// step. The `usize` handles are opaque process handles; 0 stands for "no
/// handle", which the membership test reads as the calling thread's token.
#[derive(Debug)]
pub enum QueryStep {
    /// The query is decided; nothing native is left to do.
    Done(Result<bool, Error>),
    /// Open a handle to the process with this identifier, with full access,
    /// and report the handle (0 on failure) and the native error code.
    OpenTarget(u32),
    /// Run the token-membership test against this handle and report its
    /// return value and the boolean-like result it wrote.
    CheckMembership(usize),
    /// Close this handle, then ask for the final step.
    CloseTarget(usize),
}

impl Elevation {
    /// A fresh context around the given allocation outcome.
    pub fn new(alloc: SidAllocation) -> (r: Self)
        ensures
            r == (Elevation {
                sid_result: alloc.sid_result,
                admins_group: alloc.admins_group,
                mem: alloc.mem,
                cleaned: false,
            }),
    {
        Self {
            sid_result: alloc.sid_result,
            admins_group: alloc.admins_group,
            mem: alloc.mem,
            cleaned: false,
        }
    }

    /// Replaces every field with the given allocation outcome and makes the
    /// context queryable again, whatever state it was in.
    pub fn renew(&mut self, alloc: SidAllocation)
        ensures
            *final(self) == (Elevation {
                sid_result: alloc.sid_result,
                admins_group: alloc.admins_group,
                mem: alloc.mem,
                cleaned: false,
            }),
    {
        self.sid_result = alloc.sid_result;
        self.admins_group = alloc.admins_group;
        self.mem = alloc.mem;
        self.cleaned = false;
    }

    /// Marks the context released and hands back the pair of native resources
    /// (identifier handle, auxiliary buffer) that must now be freed — or
    /// nothing, when the context was already released, so that the native
    /// free can never run twice for one allocation.
    pub fn cleanup(&mut self) -> (to_free: Option<(usize, usize)>)
        ensures
            *final(self) == (Elevation {
                sid_result: old(self).sid_result,
                admins_group: old(self).admins_group,
                mem: old(self).mem,
                cleaned: true,
            }),
            to_free == (if old(self).cleaned {
                None::<(usize, usize)>
            } else {
                Some((old(self).admins_group, old(self).mem))
            }),
    {
        if self.cleaned {
            return None;
        }

        self.cleaned = true;
        Some((self.admins_group, self.mem))
    }

    /// Whether `cleanup` has run without a renewal since.
    pub fn is_cleaned(&self) -> (r: bool)
        ensures
            r == self.cleaned,
    {
        self.cleaned
    }

    /// First step of a query: refuse a released context outright; send the
    /// session to the open call when a target is named; otherwise go straight
    /// to the membership test against the calling thread's own token, or to
    /// the answer when the status slot already records failure.
    pub fn query_start(&self, pid: Option<u32>) -> (step: QueryStep)
        ensures
            self.cleaned ==> step == QueryStep::Done(Err::<bool, Error>(not_renewed_error())),
            !self.cleaned ==> (pid matches Some(p) ==> step == QueryStep::OpenTarget(p)),
            !self.cleaned && pid is None && self.sid_result == NATIVE_TRUE
                ==> step == QueryStep::CheckMembership(0),
            !self.cleaned && pid is None && self.sid_result != NATIVE_TRUE
                ==> step == QueryStep::Done(Ok::<bool, Error>(false)),
    {
        if self.cleaned {
            return QueryStep::Done(Err(Error::new(
                0,
                NOT_RENEWED_MESSAGE,
                NOT_RENEWED_TIP,
                ErrorType::NotRenewed,
            )));
        }

        match pid {
            Some(p) => QueryStep::OpenTarget(p),
            None => {
                if self.sid_result == NATIVE_TRUE {
                    QueryStep::CheckMembership(0)
                } else {
                    QueryStep::Done(Ok(false))
                }
            },
        }
    }

    /// Step after the open call: a null handle fails the query with the
    /// native code observed at that moment; a real handle goes on to the
    /// membership test, or straight to closing when the status slot already
    /// records failure.
    pub fn query_opened(&self, handle: usize, native_code: u32) -> (step: QueryStep)
        ensures
            handle == 0 ==> step == QueryStep::Done(Err::<bool, Error>(open_process_error(native_code))),
            handle != 0 && self.sid_result == NATIVE_TRUE ==> step == QueryStep::CheckMembership(handle),
            handle != 0 && self.sid_result != NATIVE_TRUE ==> step == QueryStep::CloseTarget(handle),
    {
        if handle == 0 {
            return QueryStep::Done(Err(Error::new(
                native_code,
                OPEN_PROCESS_MESSAGE,
                OPEN_PROCESS_TIP,
                ErrorType::OpenProcessFailed,
            )));
        }

        if self.sid_result == NATIVE_TRUE {
            QueryStep::CheckMembership(handle)
        } else {
            QueryStep::CloseTarget(handle)
        }
    }

    /// Step after the membership test: record its outcome in the shared
    /// status slot (coerced to "not a member" when the call failed), then
    /// close the handle if one was opened, else answer at once.
    pub fn query_checked(&mut self, handle: usize, check_status: i32, check_slot: i32) -> (step: QueryStep)
        ensures
            *final(self) == (Elevation {
                sid_result: slot_after_check(check_status, check_slot),
                admins_group: old(self).admins_group,
                mem: old(self).mem,
                cleaned: old(self).cleaned,
            }),
            handle != 0 ==> step == QueryStep::CloseTarget(handle),
            handle == 0 ==> step == QueryStep::Done(Ok::<bool, Error>(
                slot_after_check(check_status, check_slot) == NATIVE_TRUE,
            )),
    {
        if check_status == NATIVE_FALSE {
            self.sid_result = NATIVE_FALSE;
        } else {
            self.sid_result = check_slot;
        }

        if handle != 0 {
            QueryStep::CloseTarget(handle)
        } else if self.sid_result == NATIVE_TRUE {
            QueryStep::Done(Ok(true))
        } else {
            QueryStep::Done(Ok(false))
        }
    }

    /// Final step once the opened handle is closed: the answer is the current
    /// value of the status slot, read as a boolean.
    pub fn query_closed(&self) -> (step: QueryStep)
        ensures
            step == QueryStep::Done(Ok::<bool, Error>(self.sid_result == NATIVE_TRUE)),
    {
        if self.sid_result == NATIVE_TRUE {
            QueryStep::Done(Ok(true))
        } else {
            QueryStep::Done(Ok(false))
        }
    }

    /// Whole query in one call, for a caller that already holds the native
    /// answers: drives the session steps over `native` and returns exactly
    /// what the query model says, leaving the context in the modelled state.
    pub fn is_elevated(&mut self, pid: Option<u32>, native: &NativeOutcomes) -> (r: Result<bool, Error>)
        ensures
            *final(self) == query_state_after(*old(self), pid, *native),
            r == query_result(*old(self), pid, *native),
    {
        let mut step = self.query_start(pid);

        if let QueryStep::OpenTarget(_) = step {
            step = self.query_opened(native.open_handle, native.open_error);
        }

        if let QueryStep::CheckMembership(h) = step {
            step = self.query_checked(h, native.check_status, native.check_slot);
        }

        if let QueryStep::CloseTarget(_) = step {
            step = self.query_closed();
        }

        match step {
            QueryStep::Done(r) => r,
            _ => vstd::pervasive::unreached(),
        }
    }
}

/// The context state after a whole sequence of queries, applied in order.
pub open spec fn state_after_queries(st: Elevation, qs: Seq<(Option<u32>, NativeOutcomes)>) -> Elevation
    decreases qs.len(),
{
    if qs.len() == 0 {
        st
    } else {
        state_after_queries(query_state_after(st, qs[0].0, qs[0].1), qs.drop_first())
    }
}

/// Law: a query never touches the lifecycle flag or the owned native
/// resources; only the shared status slot may change.
pub proof fn lemma_query_preserves_resources(st: Elevation, pid: Option<u32>, os: NativeOutcomes)
    ensures
        query_state_after(st, pid, os).cleaned == st.cleaned,
        query_state_after(st, pid, os).admins_group == st.admins_group,
        query_state_after(st, pid, os).mem == st.mem,
{
}

/// Law: a released context refuses every further query with the renewal
/// error, however many queries — with whatever targets and native answers —
/// came in between: no query can make a released context live again.
pub proof fn lemma_released_always_refused(
    st: Elevation,
    qs: Seq<(Option<u32>, NativeOutcomes)>,
    pid: Option<u32>,
    os: NativeOutcomes,
)
    requires
        st.cleaned,
    ensures
        state_after_queries(st, qs).cleaned,
        query_result(state_after_queries(st, qs), pid, os) == Err::<bool, Error>(not_renewed_error()),
    decreases qs.len(),
{
    if qs.len() > 0 {
        lemma_released_always_refused(query_state_after(st, qs[0].0, qs[0].1), qs.drop_first(), pid, os);
    }
}

/// Law: a live context answers every query whose target (if any) can be
/// opened with a boolean, never an error. In particular a just-constructed
/// or just-renewed context is queryable again.
pub proof fn lemma_live_context_answers(st: Elevation, pid: Option<u32>, os: NativeOutcomes)
    requires
        !st.cleaned,
        pid is Some ==> os.open_handle != 0,
    ensures
        query_result(st, pid, os) is Ok,
{
}

/// Law: when the named target cannot be opened, the query fails with the
/// `OpenProcessFailed` kind, carries the native code verbatim, and leaves
/// the context untouched.
pub proof fn lemma_open_failure_reported(st: Elevation, pid: u32, os: NativeOutcomes)
    requires
        !st.cleaned,
        os.open_handle == 0,
    ensures
        query_result(st, Some(pid), os) == Err::<bool, Error>(open_process_error(os.open_error)),
        open_process_error(os.open_error).etype == ErrorType::OpenProcessFailed,
        open_process_error(os.open_error).code == os.open_error,
        query_state_after(st, Some(pid), os) == st,
{
}

/// Law: with the native answers fixed, a query is idempotent — repeating it
/// returns the same result and moves the context to the same state, whatever
/// the target and whatever state the context started in.
pub proof fn lemma_query_idempotent(st: Elevation, pid: Option<u32>, os: NativeOutcomes)
    ensures
        query_result(query_state_after(st, pid, os), pid, os) == query_result(st, pid, os),
        query_state_after(query_state_after(st, pid, os), pid, os) == query_state_after(st, pid, os),
{
}

/// Law: the answer does not depend on the form of the target. A query with
/// no target and one whose named target opened successfully return the same
/// result and state whenever the native membership test answers the same —
/// the same `true` for an elevated process, the same `false` otherwise.
pub proof fn lemma_target_form_agrees(
    st: Elevation,
    pid: u32,
    os_none: NativeOutcomes,
    os_some: NativeOutcomes,
)
    requires
        os_some.open_handle != 0,
        os_none.check_status == os_some.check_status,
        os_none.check_slot == os_some.check_slot,
    ensures
        query_result(st, None::<u32>, os_none) == query_result(st, Some(pid), os_some),
        query_state_after(st, None::<u32>, os_none) == query_state_after(st, Some(pid), os_some),
{
}

} // verus!
