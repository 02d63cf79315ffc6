//! A submitted job, the scratch file that hands it to a fresh worker process, and the fixed
//! environment that worker runs under.
use vstd::prelude::*;

use crate::bindings::{base64_decoded, decode_base64, gunzip_to_string, gunzipped_text};

verus! {

/// Directory that holds the modules a job names.
pub const MODULE_DIR: &'static str = "wasm-modules/";

/// Scratch descriptor files are `<prefix><task id><suffix>`.
pub const TASK_FILE_PREFIX: &'static str = "/tmp/wasm_task_";
pub const TASK_FILE_SUFFIX: &'static str = ".json";

/// First argument that marks a process as a worker.
pub const WORKER_FLAG: &'static str = "child";

/// One job as submitted: which export of which module to call, on what input.
#[derive(Debug, Clone)]
pub struct WasmJobRequest {
    pub binary_name: String,
    pub func_name: String,
    pub payload: String,
    pub payload_compressed: bool,
    pub task_id: usize,
    pub model_folder_name: String,
    pub cwasm_file: String,
    pub wat_file: String,
}

// ---------------------------------------------------------------------------
// Decimal rendering

pub open spec fn digit_char(d: int) -> char {
    if d == 0 {
        '0'
    } else if d == 1 {
        '1'
    } else if d == 2 {
        '2'
    } else if d == 3 {
        '3'
    } else if d == 4 {
        '4'
    } else if d == 5 {
        '5'
    } else if d == 6 {
        '6'
    } else if d == 7 {
        '7'
    } else if d == 8 {
        '8'
    } else {
        '9'
    }
}

/// Decimal digits of `n`, most significant first, without leading zeros.
pub open spec fn decimal_digits(n: nat) -> Seq<char>
    decreases n,
{
    if n < 10 {
        seq![digit_char(n as int)]
    } else {
        decimal_digits(n / 10).push(digit_char((n % 10) as int))
    }
}

fn digit_str(d: u64) -> (r: &'static str)
    requires
        d < 10,
    ensures
        r@ == seq![digit_char(d as int)],
{
    proof {
        reveal_strlit("0");
        reveal_strlit("1");
        reveal_strlit("2");
        reveal_strlit("3");
        reveal_strlit("4");
        reveal_strlit("5");
        reveal_strlit("6");
        reveal_strlit("7");
        reveal_strlit("8");
        reveal_strlit("9");
    }
    let r = if d == 0 {
        "0"
    } else if d == 1 {
        "1"
    } else if d == 2 {
        "2"
    } else if d == 3 {
        "3"
    } else if d == 4 {
        "4"
    } else if d == 5 {
        "5"
    } else if d == 6 {
        "6"
    } else if d == 7 {
        "7"
    } else if d == 8 {
        "8"
    } else {
        "9"
    };
    assert(r@ =~= seq![digit_char(d as int)]);
    r
}

fn append_decimal(out: &mut String, n: u64)
    ensures
        final(out)@ == old(out)@ + decimal_digits(n as nat),
    decreases n,
{
    if n >= 10 {
        append_decimal(out, n / 10);
    }
    out.append(digit_str(n % 10));
    assert(old(out)@ + decimal_digits(n as nat) =~= final(out)@);
}

proof fn lemma_decimal_len(n: nat)
    ensures
        decimal_digits(n).len() >= 1,
        n >= 10 ==> decimal_digits(n).len() >= 2,
    decreases n,
{
    if n >= 10 {
        lemma_decimal_len(n / 10);
    }
}

proof fn lemma_decimal_injective(a: nat, b: nat)
    requires
        decimal_digits(a) == decimal_digits(b),
    ensures
        a == b,
    decreases a,
{
    lemma_decimal_len(a);
    lemma_decimal_len(b);
    if a >= 10 && b >= 10 {
        let da = decimal_digits(a);
        let db = decimal_digits(b);
        assert(da.last() == digit_char((a % 10) as int));
        assert(db.last() == digit_char((b % 10) as int));
        assert(da.drop_last() =~= decimal_digits(a / 10));
        assert(db.drop_last() =~= decimal_digits(b / 10));
        lemma_decimal_injective(a / 10, b / 10);
    } else if a < 10 && b < 10 {
        assert(decimal_digits(a)[0] == digit_char(a as int));
        assert(decimal_digits(b)[0] == digit_char(b as int));
    }
}

// ---------------------------------------------------------------------------
// Scratch descriptor file

/// Path of the scratch file that carries task `task_id` to its worker.
pub open spec fn task_file_of(task_id: nat) -> Seq<char> {
    TASK_FILE_PREFIX@ + decimal_digits(task_id) + TASK_FILE_SUFFIX@
}

/// The scratch file path of a task, derived from its id alone.
pub fn task_file_path(task_id: usize) -> (r: String)
    ensures
        r@ == task_file_of(task_id as nat),
{
    let mut r = String::from_str(TASK_FILE_PREFIX);
    append_decimal(&mut r, task_id as u64);
    r.append(TASK_FILE_SUFFIX);
    r
}

/// Distinct tasks get distinct scratch files, so concurrent tasks never collide.
pub proof fn lemma_task_files_distinct(a: nat, b: nat)
    requires
        a != b,
    ensures
        task_file_of(a) != task_file_of(b),
{
    if task_file_of(a) == task_file_of(b) {
        let p = TASK_FILE_PREFIX@.len() as int;
        let da = decimal_digits(a);
        let db = decimal_digits(b);
        assert(task_file_of(a).len() == p + da.len() + TASK_FILE_SUFFIX@.len());
        assert(task_file_of(b).len() == p + db.len() + TASK_FILE_SUFFIX@.len());
        assert(da.len() == db.len());
        assert(task_file_of(a).subrange(p, p + da.len()) =~= da);
        assert(task_file_of(b).subrange(p, p + db.len()) =~= db);
        lemma_decimal_injective(a, b);
    }
}

// ---------------------------------------------------------------------------
// Worker process

/// The environment every worker starts with: each numeric and inference backend pinned to
/// one thread, with its dynamic thread scaling off and execution on the CPU.
pub open spec fn worker_environment_of() -> Seq<(Seq<char>, Seq<char>)> {
    seq![
        ("OMP_NUM_THREADS"@, "1"@),
        ("MKL_NUM_THREADS"@, "1"@),
        ("NUMEXPR_NUM_THREADS"@, "1"@),
        ("OPENBLAS_NUM_THREADS"@, "1"@),
        ("BLIS_NUM_THREADS"@, "1"@),
        ("VECLIB_MAXIMUM_THREADS"@, "1"@),
        ("NUMBA_NUM_THREADS"@, "1"@),
        ("ORT_DISABLE_PARALLELISM"@, "1"@),
        ("ORT_NUM_THREADS"@, "1"@),
        ("ORT_EXECUTION_PROVIDER"@, "CPUExecutionProvider"@),
        ("MKL_DYNAMIC"@, "FALSE"@),
        ("OMP_DYNAMIC"@, "FALSE"@),
        ("OPENBLAS_DYNAMIC"@, "FALSE"@),
    ]
}

pub open spec fn pair_view(p: (String, String)) -> (Seq<char>, Seq<char>) {
    (p.0@, p.1@)
}

fn push_var(env: &mut Vec<(String, String)>, name: &str, value: &str)
    ensures
        final(env)@ == old(env)@.push((final(env)@.last().0, final(env)@.last().1)),
        pair_view(final(env)@.last()) == (name@, value@),
{
    env.push((String::from_str(name), String::from_str(value)));
}

/// The variables set on every worker process, in a fixed order.
pub fn worker_environment() -> (r: Vec<(String, String)>)
    ensures
        r@.len() == worker_environment_of().len(),
        forall|i: int|
            0 <= i < r@.len() ==> pair_view(#[trigger] r@[i]) == worker_environment_of()[i],
{
    let mut env: Vec<(String, String)> = Vec::new();
    push_var(&mut env, "OMP_NUM_THREADS", "1");
    push_var(&mut env, "MKL_NUM_THREADS", "1");
    push_var(&mut env, "NUMEXPR_NUM_THREADS", "1");
    push_var(&mut env, "OPENBLAS_NUM_THREADS", "1");
    push_var(&mut env, "BLIS_NUM_THREADS", "1");
    push_var(&mut env, "VECLIB_MAXIMUM_THREADS", "1");
    push_var(&mut env, "NUMBA_NUM_THREADS", "1");
    push_var(&mut env, "ORT_DISABLE_PARALLELISM", "1");
    push_var(&mut env, "ORT_NUM_THREADS", "1");
    push_var(&mut env, "ORT_EXECUTION_PROVIDER", "CPUExecutionProvider");
    push_var(&mut env, "MKL_DYNAMIC", "FALSE");
    push_var(&mut env, "OMP_DYNAMIC", "FALSE");
    push_var(&mut env, "OPENBLAS_DYNAMIC", "FALSE");
    env
}

/// How a process was started: as the server, or as a worker handed a scratch file.
#[derive(Debug, Clone, PartialEq, Eq)]
pub enum Invocation {
    Server,
    Worker { task_file: String },
    WorkerMissingTaskFile,
}

/// How the command line `args` (program name first) starts a process: a worker is marked by
/// the worker flag as first argument and gets the scratch file path as second.
pub open spec fn invocation_of(args: Seq<String>) -> Invocation {
    if args.len() > 1 && args[1]@ == WORKER_FLAG@ {
        if args.len() >= 3 {
            Invocation::Worker { task_file: args[2] }
        } else {
            Invocation::WorkerMissingTaskFile
        }
    } else {
        Invocation::Server
    }
}

/// Reads the command line.
pub fn parse_invocation(args: &Vec<String>) -> (r: Invocation)
    ensures
        r == invocation_of(args@),
{
    let flag = String::from_str(WORKER_FLAG);
    if args.len() > 1 && args[1] == flag {
        if args.len() >= 3 {
            Invocation::Worker { task_file: args[2].clone() }
        } else {
            Invocation::WorkerMissingTaskFile
        }
    } else {
        Invocation::Server
    }
}

/// Arguments a worker is spawned with: the worker flag, then the scratch file path alone,
/// never the payload.
pub fn worker_arguments(task_file: &String) -> (r: Vec<String>)
    ensures
        r@.len() == 2,
        r@[0]@ == WORKER_FLAG@,
        r@[1] == *task_file,
{
    let mut r: Vec<String> = Vec::new();
    r.push(String::from_str(WORKER_FLAG));
    r.push(task_file.clone());
    r
}

/// A process started with the worker arguments for a scratch file, after any program name,
/// reads back that same scratch file.
pub proof fn lemma_worker_arguments_read_back(
    program: String,
    spawned: Seq<String>,
    task_file: String,
)
    requires
        spawned.len() == 2,
        spawned[0]@ == WORKER_FLAG@,
        spawned[1] == task_file,
    ensures
        invocation_of(seq![program] + spawned) == (Invocation::Worker { task_file }),
{
    let args = seq![program] + spawned;
    assert(args[1] == spawned[0]);
    assert(args[2] == spawned[1]);
}

/// What a worker that did not exit successfully left behind.
#[derive(Debug, Clone, PartialEq, Eq)]
pub struct WorkerFailure {
    pub exit_code: Option<i32>,
    pub stdout: String,
    pub stderr: String,
}

/// The outcome of one worker run as a typed result: its output when it exited successfully,
/// else its exit code and both streams.
pub fn worker_outcome(
    success: bool,
    exit_code: Option<i32>,
    stdout: String,
    stderr: String,
) -> (r: Result<String, WorkerFailure>)
    ensures
        success ==> r == Ok::<String, WorkerFailure>(stdout),
        !success ==> r == Err::<String, WorkerFailure>(
            (WorkerFailure { exit_code, stdout, stderr }),
        ),
{
    if success {
        Ok(stdout)
    } else {
        Err(WorkerFailure { exit_code, stdout, stderr })
    }
}

// ---------------------------------------------------------------------------
// Paths and payload

/// Path of a module file, inside the module directory.
pub fn module_file_path(file_name: &str) -> (r: String)
    ensures
        r@ == MODULE_DIR@ + file_name@,
{
    let mut r = String::from_str(MODULE_DIR);
    r.append(file_name);
    r
}

/// Why a compressed payload could not be recovered.
#[derive(Debug, Clone, Copy, PartialEq, Eq, Structural)]
pub enum PayloadError {
    InvalidBase64,
    InvalidGzip,
}

/// The job input that a payload carries: the payload itself, or, when it is compressed, the
/// text that its base64 decoding inflates to.
pub open spec fn payload_of(payload: Seq<char>, compressed: bool) -> Result<
    Seq<char>,
    PayloadError,
> {
    if !compressed {
        Ok(payload)
    } else {
        match base64_decoded(payload) {
            None => Err(PayloadError::InvalidBase64),
            Some(bytes) => match gunzipped_text(bytes) {
                None => Err(PayloadError::InvalidGzip),
                Some(text) => Ok(text),
            },
        }
    }
}

/// Recovers the job input from a payload, decoding and inflating it when compressed.
pub fn resolve_payload(payload: &str, compressed: bool) -> (r: Result<String, PayloadError>)
    ensures
        match r {
            Ok(text) => payload_of(payload@, compressed) == Ok::<Seq<char>, PayloadError>(text@),
            Err(e) => payload_of(payload@, compressed) == Err::<Seq<char>, PayloadError>(e),
        },
{
    if !compressed {
        return Ok(String::from_str(payload));
    }
    let bytes = match decode_base64(payload) {
        Some(b) => b,
        None => return Err(PayloadError::InvalidBase64),
    };
    match gunzip_to_string(bytes.as_slice()) {
        Some(text) => Ok(text),
        None => Err(PayloadError::InvalidGzip),
    }
}

impl WasmJobRequest {
    /// Path of the module the job runs.
    pub fn binary_path(&self) -> (r: String)
        ensures
            r@ == MODULE_DIR@ + self.binary_name@,
    {
        module_file_path(self.binary_name.as_str())
    }

    /// Path of the precompiled module, whose size is analysed.
    pub fn cwasm_path(&self) -> (r: String)
        ensures
            r@ == MODULE_DIR@ + self.cwasm_file@,
    {
        module_file_path(self.cwasm_file.as_str())
    }

    /// Path of the cached text format of the module.
    pub fn wat_path(&self) -> (r: String)
        ensures
            r@ == MODULE_DIR@ + self.wat_file@,
    {
        module_file_path(self.wat_file.as_str())
    }

    /// Path of the scratch file that hands this job to its worker.
    pub fn task_file(&self) -> (r: String)
        ensures
            r@ == task_file_of(self.task_id as nat),
    {
        task_file_path(self.task_id)
    }

    /// The input the job's function is called with.
    pub fn job_payload(&self) -> (r: Result<String, PayloadError>)
        ensures
            match r {
                Ok(text) => payload_of(self.payload@, self.payload_compressed) == Ok::<
                    Seq<char>,
                    PayloadError,
                >(text@),
                Err(e) => payload_of(self.payload@, self.payload_compressed) == Err::<
                    Seq<char>,
                    PayloadError,
                >(e),
            },
    {
        resolve_payload(self.payload.as_str(), self.payload_compressed)
    }
}

} // verus!
