//! Assembly of a runtime execution context from a single base directory.
//!
//! From one base path the assembler derives the storage locations the
//! runtime needs, asks the host to create the two storage directories in
//! order, short-circuits on the first failure, and only then hands out a
//! complete context: identity, storage paths, persister path, and the
//! transport configuration. No partial context is ever produced.

use vstd::prelude::*;
use vstd::string::StringExecFns;

verus! {

/// The content-addressable storage directory under `base`.
pub open spec fn cas_path_spec(base: Seq<char>) -> Seq<char> {
    base + "/cas"@
}

/// The attribute-store directory under `base`.
pub open spec fn eav_path_spec(base: Seq<char>) -> Seq<char> {
    base + "/eav"@
}

/// The persister location under `base`.
pub open spec fn state_path_spec(base: Seq<char>) -> Seq<char> {
    base + "/state"@
}

/// The execution context injected into one runtime instance.
#[derive(Clone, Debug)]
pub struct Context {
    /// The placeholder identity of the minimal configuration.
    pub agent_name: String,
    /// Where the content-addressable store lives.
    pub cas_path: String,
    /// Where the attribute store lives.
    pub eav_path: String,
    /// Where the persister keeps its state.
    pub state_path: String,
    /// The transport configuration handed to the network collaborator.
    pub net_config: String,
}

/// A well-formed context for `base`: every field is derived from the base
/// path exactly as the assembler derives it.
pub open spec fn context_wf(c: Context, base: Seq<char>) -> bool {
    &&& c.agent_name@ == "c_bob"@
    &&& c.cas_path@ == cas_path_spec(base)
    &&& c.eav_path@ == eav_path_spec(base)
    &&& c.state_path@ == state_path_spec(base)
    &&& c.net_config@ == "{\"backend\": \"mock\"}"@
}

/// Joins a derived location onto the base path.
fn sub_path(base: &String, suffix: &str) -> (r: String)
    ensures
        r@ == base@ + suffix@,
{
    let mut r = base.clone();
    r.append(suffix);
    r
}

/// Builds the complete context for `base`. The storage directories must
/// already have been created; the assembler calls this only once both exist.
pub fn assemble_context(base: &String) -> (c: Context)
    ensures
        context_wf(c, base@),
{
    Context {
        agent_name: "c_bob".to_owned(),
        cas_path: sub_path(base, "/cas"),
        eav_path: sub_path(base, "/eav"),
        state_path: sub_path(base, "/state"),
        net_config: "{\"backend\": \"mock\"}".to_owned(),
    }
}

/// Why context assembly failed: the first storage directory that could not
/// be created, with the message the host reported for it.
#[derive(Clone, Debug)]
pub struct ConstructionError {
    /// The directory whose creation failed.
    pub path: String,
    /// What the host reported about the failure.
    pub message: String,
}

/// Context assembly, one directory at a time.
///
/// The host drives it: `pending_dir` names the next directory to create,
/// the host attempts the creation and reports the outcome to `advance`,
/// and the first failure short-circuits the run. Only a run in which every
/// creation succeeded reaches a context.
pub enum Assembly {
    /// The content-addressable storage directory is not confirmed yet.
    NeedCas { base: String },
    /// The attribute-store directory is not confirmed yet.
    NeedEav { base: String },
    /// Every directory exists; the context is complete.
    Ready { context: Context },
    /// A creation failed; no context is produced.
    Failed { error: ConstructionError },
}

impl Assembly {
    /// Opens an assembly run for `base`.
    pub fn begin(base: String) -> (a: Assembly)
        ensures
            a matches Assembly::NeedCas { base: b } && b@ == base@,
    {
        Assembly::NeedCas { base }
    }

    /// The directory the host must create next, if any is still pending.
    pub fn pending_dir(&self) -> (r: Option<String>)
        ensures
            self matches Assembly::NeedCas { base } ==> (r matches Option::Some(p)
                && p@ == cas_path_spec(base@)),
            self matches Assembly::NeedEav { base } ==> (r matches Option::Some(p)
                && p@ == eav_path_spec(base@)),
            (self is Ready || self is Failed) ==> r is None,
    {
        match self {
            Assembly::NeedCas { base } => Option::Some(sub_path(base, "/cas")),
            Assembly::NeedEav { base } => Option::Some(sub_path(base, "/eav")),
            _ => Option::None,
        }
    }

    /// Records the host's outcome for the directory named by `pending_dir`:
    /// success moves on, the first failure ends the run with that error.
    pub fn advance(self, outcome: Result<(), String>) -> (a: Assembly)
        requires
            self is NeedCas || self is NeedEav,
        ensures
            self matches Assembly::NeedCas { base } ==> (match outcome {
                Result::Ok(_) => a matches Assembly::NeedEav { base: b } && b@ == base@,
                Result::Err(m) => a matches Assembly::Failed { error } && error.path@
                    == cas_path_spec(base@) && error.message@ == m@,
            }),
            self matches Assembly::NeedEav { base } ==> (match outcome {
                Result::Ok(_) => a matches Assembly::Ready { context } && context_wf(
                    context,
                    base@,
                ),
                Result::Err(m) => a matches Assembly::Failed { error } && error.path@
                    == eav_path_spec(base@) && error.message@ == m@,
            }),
    {
        match (self, outcome) {
            (Assembly::NeedCas { base }, Result::Ok(())) => Assembly::NeedEav { base },
            (Assembly::NeedCas { base }, Result::Err(m)) => Assembly::Failed {
                error: ConstructionError { path: sub_path(&base, "/cas"), message: m },
            },
            (Assembly::NeedEav { base }, Result::Ok(())) => Assembly::Ready {
                context: assemble_context(&base),
            },
            (Assembly::NeedEav { base }, Result::Err(m)) => Assembly::Failed {
                error: ConstructionError { path: sub_path(&base, "/eav"), message: m },
            },
            _ => vstd::pervasive::unreached(),
        }
    }

    /// The assembled context, or the first error of a failed run.
    pub fn into_result(self) -> (r: Result<Context, ConstructionError>)
        requires
            self is Ready || self is Failed,
        ensures
            self matches Assembly::Ready { context } ==> (r matches Result::Ok(c) && c
                == context),
            self matches Assembly::Failed { error } ==> (r matches Result::Err(e) && e
                == error),
    {
        match self {
            Assembly::Ready { context } => Result::Ok(context),
            Assembly::Failed { error } => Result::Err(error),
            _ => vstd::pervasive::unreached(),
        }
    }
}

/// A model of the directory state an assembly run acts against: which paths
/// already exist as directories, and which the host could create if asked.
pub struct DirState {
    /// Paths that exist as directories.
    pub present: Set<Seq<char>>,
    /// Paths whose creation would succeed.
    pub creatable: Set<Seq<char>>,
}

/// Whether creating `p` succeeds against `d`: a present directory is left
/// alone and counts as success.
pub open spec fn create_dir_ok(d: DirState, p: Seq<char>) -> bool {
    d.present.contains(p) || d.creatable.contains(p)
}

/// The directory state after the host attempts to create `p`.
pub open spec fn create_dir_post(d: DirState, p: Seq<char>) -> DirState {
    if d.present.contains(p) {
        d
    } else if d.creatable.contains(p) {
        DirState { present: d.present.insert(p), creatable: d.creatable }
    } else {
        d
    }
}

/// One full assembly run for `base` against `d`: the directory state it
/// leaves behind, and the path of the first failed creation, if any. The
/// second directory is attempted only when the first succeeded.
pub open spec fn assembly_run(d: DirState, base: Seq<char>) -> (DirState, Option<Seq<char>>) {
    let cas = cas_path_spec(base);
    let eav = eav_path_spec(base);
    if !create_dir_ok(d, cas) {
        (d, Option::Some(cas))
    } else {
        let d1 = create_dir_post(d, cas);
        if !create_dir_ok(d1, eav) {
            (d1, Option::Some(eav))
        } else {
            (create_dir_post(d1, eav), Option::None)
        }
    }
}

/// Context assembly is idempotent: run again from the state the first run
/// left behind, it succeeds again, or fails at the same path with the same
/// outcome, and it changes nothing the second time.
pub proof fn lemma_assembly_idempotent(d: DirState, base: Seq<char>)
    ensures
        ({
            let (d1, r1) = assembly_run(d, base);
            let (d2, r2) = assembly_run(d1, base);
            r2 == r1 && d2 == d1
        }),
{
}

/// Two well-formed contexts for the same base path agree on every field:
/// assembly determines the context from the base path alone.
pub proof fn lemma_context_determined(c1: Context, c2: Context, base: Seq<char>)
    requires
        context_wf(c1, base),
        context_wf(c2, base),
    ensures
        c1.agent_name@ == c2.agent_name@,
        c1.cas_path@ == c2.cas_path@,
        c1.eav_path@ == c2.eav_path@,
        c1.state_path@ == c2.state_path@,
        c1.net_config@ == c2.net_config@,
{
}

} // verus!
