//! The execution facade: marshal a request, let the engine run it into two
//! fresh output regions, and classify what it reported.

use vstd::prelude::*;
use vstd::string::StringExecFns;
use crate::buffer::{buffer_text, buffer_to_string, new_output_buffer, OUTPUT_BUFFER_SIZE};
use crate::marshal::native_form;
use crate::request::{all_clean, reports_first_nul, request_bytes, NativeRequest, NulError};
use crate::text::{decimal, decimal_text};

verus! {

/// How the engine interprets the script of a request.
#[derive(Clone, Copy, Debug, PartialEq, Eq)]
pub enum ExecMode {
    /// Declarative zencode script.
    Zencode,
    /// Lower-level program for the engine's interpreter.
    Lua,
}

/// The engine this facade drives.
///
/// The facade hands each run a well-formed request and two zeroed regions
/// of the documented capacity. An implementation runs the request, writes
/// its primary output into `stdout` and its diagnostics into `stderr`, each
/// as terminator-ended text that stays within the region it was given, and
/// returns the engine's status, zero for success. The engine is not reentrant: an implementation
/// that reaches a shared engine holds the process-wide execution lock for
/// the whole run, so that no two runs are ever in flight at once.
pub trait NativeEngine {
    fn execute(
        &mut self,
        mode: ExecMode,
        request: &NativeRequest,
        stdout: &mut Vec<u8>,
        stderr: &mut Vec<u8>,
    ) -> i32
        requires
            request.wf(),
            old(stdout)@.len() == OUTPUT_BUFFER_SIZE,
            old(stderr)@.len() == OUTPUT_BUFFER_SIZE,
            forall|i: int| 0 <= i < OUTPUT_BUFFER_SIZE ==> old(stdout)@[i] == 0,
            forall|i: int| 0 <= i < OUTPUT_BUFFER_SIZE ==> old(stderr)@[i] == 0,
    ;
}

/// What one run produced: its output and its log text.
#[derive(Clone, Debug)]
pub struct ZenResult {
    pub output: String,
    pub logs: String,
}

#[derive(Clone, Debug)]
pub enum ZenError {
    /// The engine reported failure; what it wrote is kept.
    Execution(ZenResult),
    /// A field held a terminator byte; the engine was not reached.
    InvalidInput(NulError),
}

impl ZenError {
    /// The error as text: the engine's log for a failed run, the position
    /// of the offending byte for rejected input.
    pub fn message(&self) -> (r: String)
        ensures
            self matches ZenError::Execution(res) ==> r@ == "Execution Error:\n"@ + res.logs@,
            self matches ZenError::InvalidInput(e) ==> r@
                == "Invalid input: nul byte found in provided data at position: "@ + decimal_text(
                e.position as nat,
            ),
    {
        match self {
            ZenError::Execution(res) => String::from_str("Execution Error:\n").concat(
                res.logs.as_str(),
            ),
            ZenError::InvalidInput(e) => String::from_str(
                "Invalid input: nul byte found in provided data at position: ",
            ).concat(decimal(e.position).as_str()),
        }
    }
}

/// `res` holds the decoded text of the two output regions.
pub open spec fn carries(res: ZenResult, out: Seq<u8>, err: Seq<u8>) -> bool {
    res.output@ == buffer_text(out) && res.logs@ == buffer_text(err)
}

/// `r` is the outcome of a run that returned `status` and left `out` and
/// `err` in its output regions.
pub open spec fn outcome_of(
    r: Result<ZenResult, ZenError>,
    status: i32,
    out: Seq<u8>,
    err: Seq<u8>,
) -> bool {
    match r {
        Ok(res) => status == 0 && carries(res, out, err),
        Err(ZenError::Execution(res)) => status != 0 && carries(res, out, err),
        Err(ZenError::InvalidInput(_)) => false,
    }
}

/// Classifies a finished run: status zero is success, anything else an
/// execution error; either way both regions are decoded and kept.
pub fn outcome(status: i32, stdout: &[u8], stderr: &[u8]) -> (r: Result<ZenResult, ZenError>)
    ensures
        outcome_of(r, status, stdout@, stderr@),
{
    let res = ZenResult { output: buffer_to_string(stdout), logs: buffer_to_string(stderr) };
    if status == 0 {
        Ok(res)
    } else {
        Err(ZenError::Execution(res))
    }
}

/// One run of the engine, as the session saw it: the mode and the native
/// request handed over, the status that came back, and the bytes read back
/// from each output region (never more than its capacity).
pub struct EngineRun {
    pub mode: ExecMode,
    pub request: Seq<Seq<u8>>,
    pub status: i32,
    pub stdout: Seq<u8>,
    pub stderr: Seq<u8>,
}

/// An engine and the history of the runs made through it.
pub struct EngineSession<E> {
    pub engine: E,
    /// Every run made through the session, oldest first.
    pub runs: Ghost<Seq<EngineRun>>,
}

impl<E> EngineSession<E> {
    /// The runs made through this session, oldest first.
    pub open spec fn runs(&self) -> Seq<EngineRun> {
        self.runs@
    }

    /// A session on `engine` with no runs yet.
    pub fn new(engine: E) -> (s: Self)
        ensures
            s.engine == engine,
            s.runs() == Seq::<EngineRun>::empty(),
    {
        EngineSession { engine, runs: Ghost(Seq::empty()) }
    }
}

/// The request the engine receives for these fields: each in native form.
pub open spec fn native_request(f: Seq<Seq<u8>>) -> Seq<Seq<u8>> {
    f.map_values(|b: Seq<u8>| native_form(b))
}

/// `after` is `before` and exactly one more run: of `mode`, on the native
/// form of the fields `f`, with regions read back within capacity, and
/// with `r` as its outcome.
pub open spec fn one_run(
    before: Seq<EngineRun>,
    after: Seq<EngineRun>,
    mode: ExecMode,
    f: Seq<Seq<u8>>,
    r: Result<ZenResult, ZenError>,
) -> bool {
    &&& after.len() == before.len() + 1
    &&& after.drop_last() == before
    &&& after.last().mode == mode
    &&& after.last().request == native_request(f)
    &&& after.last().stdout.len() <= OUTPUT_BUFFER_SIZE
    &&& after.last().stderr.len() <= OUTPUT_BUFFER_SIZE
    &&& outcome_of(r, after.last().status, after.last().stdout, after.last().stderr)
}

/// How many bytes of a region are read back: all of it, up to its capacity.
fn readable_len(buf: &Vec<u8>) -> (n: usize)
    ensures
        n == if buf@.len() < OUTPUT_BUFFER_SIZE {
            buf@.len()
        } else {
            OUTPUT_BUFFER_SIZE as nat
        },
{
    if buf.len() < OUTPUT_BUFFER_SIZE {
        buf.len()
    } else {
        OUTPUT_BUFFER_SIZE
    }
}

/// Runs one request through the session's engine.
///
/// A field holding a terminator byte fails with `InvalidInput` before the
/// engine is touched. Otherwise the engine runs exactly once, in `mode`, on
/// the six fields in native form, into two fresh zeroed regions of the
/// documented capacity; the outcome is classified from its status and from
/// what it wrote, read back no further than that capacity.
pub fn exec_request<E: NativeEngine>(
    session: &mut EngineSession<E>,
    mode: ExecMode,
    script: &str,
    conf: &str,
    keys: &str,
    data: &str,
    extra: &str,
    context: &str,
) -> (r: Result<ZenResult, ZenError>)
    ensures
        all_clean(request_bytes(script, conf, keys, data, extra, context)) ==> one_run(
            old(session).runs(),
            final(session).runs(),
            mode,
            request_bytes(script, conf, keys, data, extra, context),
            r,
        ),
        !all_clean(request_bytes(script, conf, keys, data, extra, context)) ==> {
            &&& r matches Err(ZenError::InvalidInput(e))
            &&& reports_first_nul(request_bytes(script, conf, keys, data, extra, context), e)
            &&& *final(session) == *old(session)
        },
{
    let ghost f = request_bytes(script, conf, keys, data, extra, context);
    let request = match NativeRequest::new(script, conf, keys, data, extra, context) {
        Ok(q) => q,
        Err(e) => return Err(ZenError::InvalidInput(e)),
    };
    assert(request@ =~= native_request(f));
    let mut stdout = new_output_buffer();
    let mut stderr = new_output_buffer();
    let status = session.engine.execute(mode, &request, &mut stdout, &mut stderr);
    let out_len = readable_len(&stdout);
    let err_len = readable_len(&stderr);
    let out = &stdout.as_slice()[0..out_len];
    let err = &stderr.as_slice()[0..err_len];
    let r = outcome(status, out, err);
    let ghost before = session.runs@;
    session.runs = Ghost(
        session.runs@.push(
            EngineRun { mode, request: request@, status, stdout: out@, stderr: err@ },
        ),
    );
    assert(session.runs@.drop_last() =~= before);
    r
}

/// Runs a zencode script with extra and context fields.
pub fn zencode_exec_extra<E: NativeEngine>(
    session: &mut EngineSession<E>,
    script: &str,
    conf: &str,
    keys: &str,
    data: &str,
    extra: &str,
    context: &str,
) -> (r: Result<ZenResult, ZenError>)
    ensures
        all_clean(request_bytes(script, conf, keys, data, extra, context)) ==> one_run(
            old(session).runs(),
            final(session).runs(),
            ExecMode::Zencode,
            request_bytes(script, conf, keys, data, extra, context),
            r,
        ),
        !all_clean(request_bytes(script, conf, keys, data, extra, context)) ==> {
            &&& r matches Err(ZenError::InvalidInput(e))
            &&& reports_first_nul(request_bytes(script, conf, keys, data, extra, context), e)
            &&& *final(session) == *old(session)
        },
{
    exec_request(session, ExecMode::Zencode, script, conf, keys, data, extra, context)
}

/// Runs a zencode script; extra and context are empty.
pub fn zencode_exec<E: NativeEngine>(
    session: &mut EngineSession<E>,
    script: &str,
    conf: &str,
    keys: &str,
    data: &str,
) -> (r: Result<ZenResult, ZenError>)
    ensures
        all_clean(request_bytes(script, conf, keys, data, "", "")) ==> one_run(
            old(session).runs(),
            final(session).runs(),
            ExecMode::Zencode,
            request_bytes(script, conf, keys, data, "", ""),
            r,
        ),
        !all_clean(request_bytes(script, conf, keys, data, "", "")) ==> {
            &&& r matches Err(ZenError::InvalidInput(e))
            &&& reports_first_nul(request_bytes(script, conf, keys, data, "", ""), e)
            &&& *final(session) == *old(session)
        },
{
    exec_request(session, ExecMode::Zencode, script, conf, keys, data, "", "")
}

/// Runs a program for the engine's interpreter; extra and context are empty.
pub fn zenroom_exec<E: NativeEngine>(
    session: &mut EngineSession<E>,
    script: &str,
    conf: &str,
    keys: &str,
    data: &str,
) -> (r: Result<ZenResult, ZenError>)
    ensures
        all_clean(request_bytes(script, conf, keys, data, "", "")) ==> one_run(
            old(session).runs(),
            final(session).runs(),
            ExecMode::Lua,
            request_bytes(script, conf, keys, data, "", ""),
            r,
        ),
        !all_clean(request_bytes(script, conf, keys, data, "", "")) ==> {
            &&& r matches Err(ZenError::InvalidInput(e))
            &&& reports_first_nul(request_bytes(script, conf, keys, data, "", ""), e)
            &&& *final(session) == *old(session)
        },
{
    exec_request(session, ExecMode::Lua, script, conf, keys, data, "", "")
}

/// Runs that report the same status and leave the same bytes in their
/// output regions have outcomes of the same kind carrying the same text,
/// however many runs there are and whichever order they took.
pub proof fn lemma_outcome_determined(
    r1: Result<ZenResult, ZenError>,
    r2: Result<ZenResult, ZenError>,
    status: i32,
    out: Seq<u8>,
    err: Seq<u8>,
)
    requires
        outcome_of(r1, status, out, err),
        outcome_of(r2, status, out, err),
    ensures
        r1 is Ok <==> r2 is Ok,
        r1 matches Ok(a) ==> (r2 matches Ok(b) && a.output@ == b.output@ && a.logs@ == b.logs@),
        r1 matches Err(ZenError::Execution(a)) ==> (r2 matches Err(ZenError::Execution(b))
            && a.output@ == b.output@ && a.logs@ == b.logs@),
{
}

} // verus!
