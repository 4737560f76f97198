//! The SDK's global lifecycle: initialize once, shut down once initialized.
//!
//! The SDK keeps one process-wide state. `Lifecycle` is that state as a value;
//! the caller holds it, performs the SDK call a step asks for, and hands the
//! result code back.
use vstd::prelude::*;
use vstd::utf8::*;

use crate::cstr::{c_string, has_nul, is_nul_error_of, law_c_text_round_trip, terminated, until_nul};
use crate::error::{ok_spec, Error};

verus! {

/// Product information given to the SDK at initialization.
pub struct InitializeOptions {
    pub product_name: String,
    pub product_version: String,
}

/// The NUL-terminated strings an initialization call hands to the SDK.
pub struct InitializeRequest {
    pub product_name: Vec<u8>,
    pub product_version: Vec<u8>,
}

/// What `initialize` has to do next.
pub enum InitializeStep {
    /// The SDK is already initialized: nothing to call, the answer is `Ok(())`.
    AlreadyInitialized,
    /// Call the SDK's initialization with these strings.
    Call(InitializeRequest),
}

/// What `shutdown` has to do next.
#[derive(Clone, Copy, Debug, PartialEq, Eq)]
pub enum ShutdownStep {
    /// The SDK was never initialized: nothing to call, the answer is `Ok(())`.
    NothingToDo,
    /// Call the SDK's shutdown and report its result code.
    Call,
}

/// Whether the SDK has been initialized successfully in this process.
pub struct Lifecycle {
    initialized: bool,
}

impl View for Lifecycle {
    type V = bool;

    closed spec fn view(&self) -> bool {
        self.initialized
    }
}

/// The state after an initialization call that returned `res`, from state `initialized`.
pub open spec fn after_initialize(initialized: bool, res: i32) -> bool {
    initialized || ok_spec(res) is Ok
}

/// `r` is the step `initialize` takes from state `initialized` with these options.
pub open spec fn is_initialize_step(
    r: Result<InitializeStep, Error>,
    initialized: bool,
    name: Seq<u8>,
    version: Seq<u8>,
) -> bool {
    &&& initialized ==> (r matches Ok(InitializeStep::AlreadyInitialized))
    &&& !initialized ==> (r is Ok <==> !has_nul(name) && !has_nul(version))
    &&& !initialized ==> (r matches Ok(step) ==> (step matches InitializeStep::Call(req)
        && req.product_name@ == terminated(name) && req.product_version@ == terminated(version)))
    &&& !initialized && has_nul(name) ==> (r matches Err(Error::Nul(n)) && is_nul_error_of(n, name))
    &&& !initialized && !has_nul(name) && has_nul(version) ==> (r matches Err(Error::Nul(n))
        && is_nul_error_of(n, version))
}

impl Lifecycle {
    /// The state of a process that has not initialized the SDK.
    pub fn new() -> (l: Lifecycle)
        ensures
            !l@,
    {
        Lifecycle { initialized: false }
    }

    /// Whether the SDK has been initialized.
    pub fn is_initialized(&self) -> (b: bool)
        ensures
            b == self@,
    {
        self.initialized
    }

    /// First step of `initialize`: nothing to do once the SDK is initialized;
    /// else the strings for the SDK call, or `Error::Nul` for the first of
    /// product name and version that holds a NUL character.
    pub fn begin_initialize(&self, opts: &InitializeOptions) -> (r: Result<InitializeStep, Error>)
        ensures
            is_initialize_step(r, self@, encode_utf8(opts.product_name@), encode_utf8(opts.product_version@)),
    {
        if self.initialized {
            return Ok(InitializeStep::AlreadyInitialized);
        }
        let product_name = c_string(opts.product_name.as_str())?;
        let product_version = c_string(opts.product_version.as_str())?;
        Ok(InitializeStep::Call(InitializeRequest { product_name, product_version }))
    }

    /// Last step of `initialize`: the SDK answered `res`. The SDK counts as
    /// initialized from its first success on.
    pub fn finish_initialize(&mut self, res: i32) -> (r: Result<(), Error>)
        ensures
            r == ok_spec(res),
            final(self)@ == after_initialize(old(self)@, res),
    {
        let r = crate::error::ok(res);
        if r.is_ok() {
            self.initialized = true;
        }
        r
    }

    /// First step of `shutdown`: the SDK is shut down only when it was initialized.
    pub fn shutdown_step(&self) -> (s: ShutdownStep)
        ensures
            s == ShutdownStep::Call <==> self@,
    {
        if self.initialized {
            ShutdownStep::Call
        } else {
            ShutdownStep::NothingToDo
        }
    }

    /// Last step of `shutdown`: the SDK answered `res`.
    pub fn finish_shutdown(&self, res: i32) -> (r: Result<(), Error>)
        ensures
            r == ok_spec(res),
    {
        crate::error::ok(res)
    }
}

/// Once initialization has succeeded, every later initialization is answered
/// without calling the SDK, whatever the options.
pub proof fn law_initialize_once(
    r: Result<InitializeStep, Error>,
    res: i32,
    name: Seq<u8>,
    version: Seq<u8>,
)
    requires
        ok_spec(res) is Ok,
        is_initialize_step(r, after_initialize(false, res), name, version),
    ensures
        r matches Ok(InitializeStep::AlreadyInitialized),
{
}

/// A first initialization hands the SDK the product name and version it was
/// given, each under its own field and reading back unchanged, and fails
/// exactly when one of them holds a NUL character; a successful answer then
/// marks the process initialized.
pub proof fn law_initialize_request_carries_options(
    r: Result<InitializeStep, Error>,
    name: Seq<char>,
    version: Seq<char>,
)
    requires
        is_initialize_step(r, false, encode_utf8(name), encode_utf8(version)),
    ensures
        r is Ok <==> !has_nul(encode_utf8(name)) && !has_nul(encode_utf8(version)),
        r is Ok ==> (r matches Ok(InitializeStep::Call(req)) && decode_utf8(until_nul(req.product_name@)) == name
            && decode_utf8(until_nul(req.product_version@)) == version),
        after_initialize(false, 0),
        !after_initialize(false, 1),
{
    if r is Ok {
        law_c_text_round_trip(name);
        law_c_text_round_trip(version);
    }
}

/// A process stays initialized whatever later initialization calls answer.
pub proof fn law_initialized_stays(initialized: bool, res: i32)
    requires
        initialized,
    ensures
        after_initialize(initialized, res),
{
}

/// A failed initialization leaves the state as it was.
pub proof fn law_failed_initialize_keeps_state(initialized: bool, res: i32)
    requires
        ok_spec(res) is Err,
    ensures
        after_initialize(initialized, res) == initialized,
{
}

} // verus!
