//! Directories that the worker spills into.
//!
//! Every worker incarnation has a directory of its own under a root, and every
//! execution one below that. Here are their names and what is done with what
//! lies at the root; the file system is worked on elsewhere.

use super::error::{violates, WorkerRuntimeError};
use crate::control::lease::{BackendLeaseId, BackendLeaseSlot};
use crate::text::{
    append_decimal, append_signed, decimal, digit_char, owned, signed_decimal,
};
use vstd::prelude::*;
use vstd::slice::slice_to_vec;
use vstd::string::{StrSliceExecFns, StringExecFns};

verus! {

/// `String::push`: the character is appended.
pub assume_specification[ String::push ](string: &mut String, ch: char)
    ensures
        final(string)@ == old(string)@.push(ch),
;

/// A text begins with another.
pub open spec fn starts_with(text: Seq<char>, prefix: Seq<char>) -> bool {
    text.len() >= prefix.len() && text.take(prefix.len() as int) == prefix
}

/// A text has another at an index.
pub open spec fn has_at(text: Seq<char>, part: Seq<char>, at: int) -> bool {
    0 <= at <= text.len() - part.len() && text.subrange(at, at + part.len()) == part
}

/// A text has another somewhere.
pub open spec fn contains_text(text: Seq<char>, part: Seq<char>) -> bool {
    exists|at: int| #[trigger] has_at(text, part, at)
}

/// A name is that of the directory of a worker incarnation.
pub open spec fn incarnation_name(name: Seq<char>) -> bool {
    starts_with(name, "worker-"@) && contains_text(name, "-gen-"@)
}

fn text_has_at(text: &str, part: &str, at: usize, text_len: usize, part_len: usize) -> (r: bool)
    requires
        text_len == text@.len(),
        part_len == part@.len(),
        at <= text_len,
    ensures
        r == has_at(text@, part@, at as int),
{
    if part_len > text_len - at {
        return false;
    }
    let mut i: usize = 0;
    while i < part_len
        invariant
            i <= part_len,
            part_len == part@.len(),
            text_len == text@.len(),
            at + part_len <= text_len,
            forall|j: int| 0 <= j < i ==> text@[at + j] == #[trigger] part@[j],
        decreases part_len - i,
    {
        if text.get_char(at + i) != part.get_char(i) {
            assert(text@.subrange(at as int, at + part_len)[i as int] != part@[i as int]);
            return false;
        }
        i = i + 1;
    }
    assert(text@.subrange(at as int, at + part_len) =~= part@);
    true
}

/// Whether a name is that of the directory of a worker incarnation.
pub fn is_worker_incarnation_dir(name: &str) -> (r: bool)
    ensures
        r == incarnation_name(name@),
{
    let prefix: &'static str = "worker-";
    let marker: &'static str = "-gen-";
    let len: usize = name.unicode_len();
    let prefix_len: usize = prefix.unicode_len();
    let marker_len: usize = marker.unicode_len();
    if !text_has_at(name, prefix, 0, len, prefix_len) {
        assert(!starts_with(name@, prefix@));
        return false;
    }
    assert(name@.take(prefix_len as int) =~= name@.subrange(0, prefix_len as int));
    let mut at: usize = 0;
    while at < len
        invariant
            at <= len,
            len == name@.len(),
            marker_len == marker@.len(),
            starts_with(name@, prefix@),
            prefix@ == "worker-"@,
            marker@ == "-gen-"@,
            forall|i: int| 0 <= i < at ==> !#[trigger] has_at(name@, marker@, i),
        decreases len - at,
    {
        if text_has_at(name, marker, at, len, marker_len) {
            assert(has_at(name@, marker@, at as int));
            return true;
        }
        at = at + 1;
    }
    if text_has_at(name, marker, len, len, marker_len) {
        assert(has_at(name@, marker@, len as int));
        return true;
    }
    assert(!contains_text(name@, marker@)) by {
        if contains_text(name@, marker@) {
            let i = choose|i: int| #[trigger] has_at(name@, marker@, i);
            assert(i == len || i < len);
        }
    }
    false
}

/// A character that a path component keeps.
pub open spec fn is_safe(ch: char) -> bool {
    ||| 'a' <= ch && ch <= 'z'
    ||| 'A' <= ch && ch <= 'Z'
    ||| '0' <= ch && ch <= '9'
    ||| ch == '-'
    ||| ch == '_'
    ||| ch == '.'
}

/// A text as a path component: everything else becomes an underscore.
pub open spec fn safe_component(value: Seq<char>) -> Seq<char> {
    if value.len() == 0 {
        "unknown"@
    } else {
        value.map_values(
            |ch: char|
                if is_safe(ch) {
                    ch
                } else {
                    '_'
                },
        )
    }
}

/// A text as a path component.
pub fn safe_path_component(value: &str) -> (r: String)
    ensures
        r@ == safe_component(value@),
{
    let len: usize = value.unicode_len();
    if len == 0 {
        return owned("unknown");
    }
    let mut out: String = String::new();
    let mut i: usize = 0;
    proof {
        assert(out@ =~= safe_component(value@).take(0));
    }
    while i < len
        invariant
            i <= len,
            len == value@.len(),
            len > 0,
            out@ == safe_component(value@).take(i as int),
        decreases len - i,
    {
        let ch: char = value.get_char(i);
        let safe: bool = ('a' <= ch && ch <= 'z') || ('A' <= ch && ch <= 'Z') || ('0' <= ch && ch
            <= '9') || ch == '-' || ch == '_' || ch == '.';
        if safe {
            out.push(ch);
        } else {
            out.push('_');
        }
        assert(out@ =~= safe_component(value@).take(i + 1));
        i = i + 1;
    }
    assert(out@ =~= safe_component(value@));
    out
}

/// A path: a directory, by the bytes that the operating system knows it by, and
/// names below it.
#[derive(Debug, PartialEq, Eq)]
pub struct SpillPath {
    pub base: Vec<u8>,
    pub components: Vec<String>,
}

/// What a path is.
#[verifier::ext_equal]
pub struct PathText {
    pub base: Seq<u8>,
    pub components: Seq<Seq<char>>,
}

impl View for SpillPath {
    type V = PathText;

    open spec fn view(&self) -> PathText {
        PathText {
            base: self.base@,
            components: self.components@.map_values(|name: String| name@),
        }
    }
}

impl PathText {
    /// A name below the path.
    pub open spec fn below(self, name: Seq<char>) -> PathText {
        PathText { components: self.components.push(name), ..self }
    }
}

impl SpillPath {
    /// A directory.
    pub fn new(base: Vec<u8>) -> (r: Self)
        ensures
            r@ == (PathText { base: base@, components: Seq::empty() }),
    {
        let r = SpillPath { base, components: Vec::new() };
        assert(r@ =~= (PathText { base: base@, components: Seq::empty() }));
        r
    }

    /// A name below this path.
    pub fn join(&self, name: String) -> (r: Self)
        ensures
            r@ == self@.below(name@),
    {
        let mut components: Vec<String> = Vec::new();
        let mut i: usize = 0;
        while i < self.components.len()
            invariant
                i <= self.components@.len(),
                components@.len() == i,
                forall|j: int|
                    0 <= j < i ==> (#[trigger] components@[j])@ == self.components@[j]@,
            decreases self.components.len() - i,
        {
            components.push(owned(self.components[i].as_str()));
            i = i + 1;
        }
        components.push(name);
        let r = SpillPath { base: slice_to_vec(self.base.as_slice()), components };
        assert(r@ =~= self@.below(name@));
        r
    }

    /// The same path.
    pub fn copied(&self) -> (r: Self)
        ensures
            r@ == self@,
    {
        let mut components: Vec<String> = Vec::new();
        let mut i: usize = 0;
        while i < self.components.len()
            invariant
                i <= self.components@.len(),
                components@.len() == i,
                forall|j: int|
                    0 <= j < i ==> (#[trigger] components@[j])@ == self.components@[j]@,
            decreases self.components.len() - i,
        {
            components.push(owned(self.components[i].as_str()));
            i = i + 1;
        }
        let r = SpillPath { base: slice_to_vec(self.base.as_slice()), components };
        assert(r@ =~= self@);
        r
    }
}

/// Worker-owned spill configuration.
#[derive(Debug, PartialEq, Eq)]
pub struct WorkerSpillConfig {
    /// None keeps queries on unbounded memory.
    pub memory_limit_bytes: Option<usize>,
    /// Root directory of the incarnations.
    pub root: SpillPath,
}

impl WorkerSpillConfig {
    pub fn new(memory_limit_bytes: Option<usize>, root: SpillPath) -> (r: Self)
        ensures
            r == (WorkerSpillConfig { memory_limit_bytes, root }),
    {
        WorkerSpillConfig { memory_limit_bytes, root }
    }

    pub fn enabled(&self) -> (r: bool)
        ensures
            r == self.memory_limit_bytes is Some,
    {
        self.memory_limit_bytes.is_some()
    }

    /// The same configuration for one cluster: its root lies below the root.
    pub fn with_cluster_namespace(self, cluster_id: &str) -> (r: Self)
        ensures
            r.memory_limit_bytes == self.memory_limit_bytes,
            r.root@ == self.root@.below("cluster-"@ + safe_component(cluster_id@)),
    {
        let mut name: String = owned("cluster-");
        name.append(safe_path_component(cluster_id).as_str());
        WorkerSpillConfig {
            memory_limit_bytes: self.memory_limit_bytes,
            root: self.root.join(name),
        }
    }
}

/// The name of the directory of a worker incarnation.
pub open spec fn worker_dir(pid: i32, generation: u64) -> Seq<char> {
    "worker-"@ + signed_decimal(pid as int) + "-gen-"@ + decimal(generation as nat)
}

/// The name of the directory of an execution.
pub open spec fn execution_dir_name(
    peer: BackendLeaseSlot,
    session_epoch: u64,
    serial: u64,
) -> Seq<char> {
    "exec-slot-"@ + decimal(peer.slot_id as nat) + "-backendgen-"@ + decimal(
        peer.lease_id.generation as nat,
    ) + "-lease-"@ + decimal(peer.lease_id.lease_epoch as nat) + "-session-"@ + decimal(
        session_epoch as nat,
    ) + "-"@ + decimal(serial as nat)
}

/// Worker-local spill directories for one transport generation.
#[derive(Debug, PartialEq, Eq)]
pub struct WorkerSpillRuntime {
    pub config: WorkerSpillConfig,
    pub active_dir: Option<SpillPath>,
    pub next_execution_serial: u64,
}

/// The spill directory of one execution.
#[derive(Debug, PartialEq, Eq)]
pub struct ExecutionSpillDir {
    pub path: Option<SpillPath>,
}

/// What a query runs with.
#[derive(Debug, PartialEq, Eq)]
pub enum TaskResources {
    /// Unbounded memory, no spilling.
    Unbounded,
    /// So many bytes of memory, and a directory to spill into.
    Spilling { memory_limit_bytes: usize, directory: SpillPath },
}

impl WorkerSpillRuntime {
    /// The directories of a worker incarnation. Without a memory limit there are
    /// none.
    pub fn new(config: WorkerSpillConfig, worker_pid: i32, worker_generation: u64) -> (r: Self)
        ensures
            r.config == config,
            r.next_execution_serial == 0,
            config.memory_limit_bytes is None ==> r.active_dir is None,
            config.memory_limit_bytes is Some ==> (r.active_dir matches Some(dir) && dir@
                == config.root@.below(worker_dir(worker_pid, worker_generation))),
    {
        if !config.enabled() {
            return WorkerSpillRuntime { config, active_dir: None, next_execution_serial: 0 };
        }
        let mut name: String = owned("worker-");
        append_signed(&mut name, worker_pid);
        name.append("-gen-");
        append_decimal(&mut name, worker_generation);
        let active_dir: SpillPath = config.root.join(name);
        WorkerSpillRuntime { config, active_dir: Some(active_dir), next_execution_serial: 0 }
    }

    pub fn config(&self) -> (r: &WorkerSpillConfig)
        ensures
            *r == self.config,
    {
        &self.config
    }

    pub fn active_dir(&self) -> (r: Option<&SpillPath>)
        ensures
            match self.active_dir {
                Some(dir) => r == Some(&dir),
                None => r is None,
            },
    {
        self.active_dir.as_ref()
    }

    /// The directory of the next execution. Each execution gets the next serial
    /// number.
    pub fn execution_dir(&mut self, peer: BackendLeaseSlot, session_epoch: u64) -> (r:
        ExecutionSpillDir)
        ensures
            final(self).config == old(self).config,
            final(self).active_dir == old(self).active_dir,
            match old(self).active_dir {
                None => r.path is None && final(self).next_execution_serial
                    == old(self).next_execution_serial,
                Some(dir) => {
                    &&& final(self).next_execution_serial
                        == old(self).next_execution_serial.wrapping_add(1)
                    &&& r.path matches Some(path) && path@ == dir@.below(
                        execution_dir_name(
                            peer,
                            session_epoch,
                            old(self).next_execution_serial,
                        ),
                    )
                },
            },
    {
        let serial: u64 = self.next_execution_serial;
        let path: SpillPath = match &self.active_dir {
            None => {
                return ExecutionSpillDir { path: None };
            },
            Some(active_dir) => {
                let lease: BackendLeaseId = peer.lease_id();
                let mut name: String = owned("exec-slot-");
                append_decimal(&mut name, peer.slot_id() as u64);
                name.append("-backendgen-");
                append_decimal(&mut name, lease.generation());
                name.append("-lease-");
                append_decimal(&mut name, lease.lease_epoch());
                name.append("-session-");
                append_decimal(&mut name, session_epoch);
                name.append("-");
                append_decimal(&mut name, serial);
                active_dir.join(name)
            },
        };
        self.next_execution_serial = serial.wrapping_add(1);
        ExecutionSpillDir { path: Some(path) }
    }

    /// What an execution with this directory runs with.
    pub fn task_resources(&self, spill_dir: &ExecutionSpillDir) -> (r: Result<
        TaskResources,
        WorkerRuntimeError,
    >)
        ensures
            match self.config.memory_limit_bytes {
                None => r == Ok::<TaskResources, WorkerRuntimeError>(TaskResources::Unbounded),
                Some(limit) => match spill_dir.path {
                    None => r matches Err(e) && violates(
                        e,
                        "worker spill is enabled but execution spill directory was not created"@,
                    ),
                    Some(path) => r matches Ok(
                        TaskResources::Spilling { memory_limit_bytes, directory },
                    ) && memory_limit_bytes == limit && directory@ == path@,
                },
            },
    {
        let memory_limit_bytes: usize = match self.config.memory_limit_bytes {
            Some(limit) => limit,
            None => {
                return Ok(TaskResources::Unbounded);
            },
        };
        match &spill_dir.path {
            None => Err(
                WorkerRuntimeError::ProtocolViolation(
                    owned("worker spill is enabled but execution spill directory was not created"),
                ),
            ),
            Some(path) => Ok(
                TaskResources::Spilling { memory_limit_bytes, directory: path.copied() },
            ),
        }
    }

    /// The directory to remove when the worker ends; it is handed out once.
    pub fn release(&mut self) -> (r: Option<SpillPath>)
        ensures
            r == old(self).active_dir,
            final(self).active_dir is None,
            final(self).config == old(self).config,
            final(self).next_execution_serial == old(self).next_execution_serial,
    {
        self.active_dir.take()
    }
}

impl ExecutionSpillDir {
    pub fn path(&self) -> (r: Option<&SpillPath>)
        ensures
            match self.path {
                Some(path) => r == Some(&path),
                None => r is None,
            },
    {
        self.path.as_ref()
    }

    /// The directory to remove when the execution ends; it is handed out once.
    pub fn cleanup(&mut self) -> (r: Option<SpillPath>)
        ensures
            r == old(self).path,
            final(self).path is None,
    {
        self.path.take()
    }
}

/// How making or removing a directory went.
#[derive(Clone, Copy, Debug, PartialEq, Eq, Structural)]
pub enum DirOutcome {
    Done,
    AlreadyExists,
    NotFound,
    Failed,
}

/// What follows from an attempt to make the directory of an incarnation.
#[derive(Clone, Copy, Debug, PartialEq, Eq, Structural)]
pub enum IncarnationStep {
    /// The directory is there and ours.
    Ready,
    /// An earlier incarnation of ours left it: remove it and try once more.
    Replace,
    /// It cannot be had.
    Refuse,
}

/// Decides what follows from an attempt to make the directory of an incarnation.
/// A directory that is in the way is replaced only if it carries the mark of a
/// worker, and only once.
pub fn incarnation_step(outcome: DirOutcome, owned_by_worker: bool, first_attempt: bool) -> (r:
    IncarnationStep)
    ensures
        r == if outcome == DirOutcome::Done {
            IncarnationStep::Ready
        } else if outcome == DirOutcome::AlreadyExists && owned_by_worker && first_attempt {
            IncarnationStep::Replace
        } else {
            IncarnationStep::Refuse
        },
{
    match outcome {
        DirOutcome::Done => IncarnationStep::Ready,
        DirOutcome::AlreadyExists => {
            if owned_by_worker && first_attempt {
                IncarnationStep::Replace
            } else {
                IncarnationStep::Refuse
            }
        },
        _ => IncarnationStep::Refuse,
    }
}

/// Whether a directory is gone after an attempt to remove it.
pub fn removal_succeeded(outcome: DirOutcome) -> (r: bool)
    ensures
        r == (outcome == DirOutcome::Done || outcome == DirOutcome::NotFound),
{
    match outcome {
        DirOutcome::Done => true,
        DirOutcome::NotFound => true,
        _ => false,
    }
}

/// Decides whether an entry of the root is a stale incarnation to remove: not
/// the active one, a directory, named like an incarnation, and marked as a
/// worker's. `is_dir` is none where that could not be found out.
pub fn is_stale_incarnation(
    is_active: bool,
    is_dir: Option<bool>,
    name: &str,
    owned_by_worker: bool,
) -> (r: bool)
    ensures
        r == (!is_active && is_dir == Some(true) && incarnation_name(name@) && owned_by_worker),
{
    let dir: bool = match is_dir {
        Some(dir) => dir,
        None => false,
    };
    !is_active && dir && is_worker_incarnation_dir(name) && owned_by_worker
}

/// The directory of a worker incarnation is recognized as one.
pub proof fn law_worker_dir_is_recognized(pid: i32, generation: u64)
    ensures
        incarnation_name(worker_dir(pid, generation)),
{
    let name = worker_dir(pid, generation);
    let front = "worker-"@ + signed_decimal(pid as int);
    assert(name.take("worker-"@.len() as int) =~= "worker-"@);
    assert(name.subrange(front.len() as int, (front.len() + "-gen-"@.len()) as int) =~= "-gen-"@);
    assert(has_at(name, "-gen-"@, front.len() as int));
}

/// A name is that of an incarnation exactly if it begins with the mark of a worker
/// and has the mark of a generation somewhere.
pub proof fn law_incarnation_names(name: Seq<char>)
    ensures
        incarnation_name(name) <==> {
            &&& name.len() >= 7
            &&& name[0] == 'w' && name[1] == 'o' && name[2] == 'r' && name[3] == 'k' && name[4]
                == 'e' && name[5] == 'r' && name[6] == '-'
            &&& exists|at: int| #[trigger] has_generation_mark(name, at)
        },
{
    reveal_strlit("worker-");
    reveal_strlit("-gen-");
    if name.len() >= 7 {
        assert(name.take(7) =~= "worker-"@ <==> (name[0] == 'w' && name[1] == 'o' && name[2] == 'r'
            && name[3] == 'k' && name[4] == 'e' && name[5] == 'r' && name[6] == '-')) by {
            if name.take(7) =~= "worker-"@ {
                assert(name[0] == name.take(7)[0] && name[1] == name.take(7)[1] && name[2]
                    == name.take(7)[2] && name[3] == name.take(7)[3] && name[4] == name.take(7)[4]
                    && name[5] == name.take(7)[5] && name[6] == name.take(7)[6]);
            }
        }
    }
    assert forall|at: int| #[trigger] has_at(name, "-gen-"@, at) <==> has_generation_mark(
        name,
        at,
    ) by {
        if 0 <= at <= name.len() - 5 {
            let part = name.subrange(at, at + 5);
            if has_at(name, "-gen-"@, at) {
                assert(part[0] == '-' && part[1] == 'g' && part[2] == 'e' && part[3] == 'n'
                    && part[4] == '-');
            }
            if has_generation_mark(name, at) {
                assert(part =~= "-gen-"@);
            }
        }
    }
    if contains_text(name, "-gen-"@) {
        let at = choose|at: int| #[trigger] has_at(name, "-gen-"@, at);
        assert(has_generation_mark(name, at));
    }
    if exists|at: int| #[trigger] has_generation_mark(name, at) {
        let at = choose|at: int| #[trigger] has_generation_mark(name, at);
        assert(has_at(name, "-gen-"@, at));
    }
}

/// The mark of a generation stands in the name at this place.
pub open spec fn has_generation_mark(name: Seq<char>, at: int) -> bool {
    &&& 0 <= at <= name.len() - 5
    &&& name[at] == '-'
    &&& name[at + 1] == 'g'
    &&& name[at + 2] == 'e'
    &&& name[at + 3] == 'n'
    &&& name[at + 4] == '-'
}

/// A path component of a cluster holds no separator, and is not empty.
pub proof fn law_component_is_safe(value: Seq<char>)
    ensures
        safe_component(value).len() > 0,
        forall|i: int|
            0 <= i < safe_component(value).len() ==> is_safe(#[trigger] safe_component(value)[i]),
{
    reveal_strlit("unknown");
}

spec fn is_digit(ch: char) -> bool {
    '0' <= ch && ch <= '9'
}

proof fn lemma_decimal_digits(value: nat)
    ensures
        decimal(value).len() > 0,
        forall|i: int| 0 <= i < decimal(value).len() ==> is_digit(#[trigger] decimal(value)[i]),
    decreases value,
{
    if value >= 10 {
        lemma_decimal_digits(value / 10);
    }
}

proof fn lemma_decimal_injective(a: nat, b: nat)
    requires
        decimal(a) == decimal(b),
    ensures
        a == b,
    decreases a,
{
    lemma_decimal_digits(a / 10);
    lemma_decimal_digits(b / 10);
    if a >= 10 && b >= 10 {
        assert(decimal(a).drop_last() =~= decimal(a / 10));
        assert(decimal(b).drop_last() =~= decimal(b / 10));
        assert(decimal(a).last() == digit_char(a % 10));
        assert(decimal(b).last() == digit_char(b % 10));
        lemma_decimal_injective(a / 10, b / 10);
    } else if a >= 10 {
        assert(decimal(a).len() == decimal(a / 10).len() + 1);
    } else if b >= 10 {
        assert(decimal(b).len() == decimal(b / 10).len() + 1);
    } else {
        assert(decimal(a)[0] == digit_char(a));
        assert(decimal(b)[0] == digit_char(b));
    }
}

/// Executions with different serial numbers have different directories, whatever
/// else is the same.
pub proof fn law_execution_dirs_differ(
    peer_a: BackendLeaseSlot,
    session_a: u64,
    serial_a: u64,
    peer_b: BackendLeaseSlot,
    session_b: u64,
    serial_b: u64,
)
    requires
        serial_a != serial_b,
    ensures
        execution_dir_name(peer_a, session_a, serial_a) != execution_dir_name(
            peer_b,
            session_b,
            serial_b,
        ),
{
    let a = execution_dir_name(peer_a, session_a, serial_a);
    let b = execution_dir_name(peer_b, session_b, serial_b);
    let da = decimal(serial_a as nat);
    let db = decimal(serial_b as nat);
    lemma_decimal_digits(serial_a as nat);
    lemma_decimal_digits(serial_b as nat);
    reveal_strlit("-");
    assert(a[a.len() - da.len() - 1] == '-');
    assert(b[b.len() - db.len() - 1] == '-');
    assert forall|i: int| 0 <= i < da.len() implies a[a.len() - da.len() + i] == #[trigger] da[i] by {
    }
    assert forall|i: int| 0 <= i < db.len() implies b[b.len() - db.len() + i] == #[trigger] db[i] by {
    }
    if a == b {
        if da.len() < db.len() {
            let i = db.len() - da.len() - 1;
            assert(is_digit(db[i]));
            assert(b[b.len() - db.len() + i] == db[i]);
        } else if db.len() < da.len() {
            let i = da.len() - db.len() - 1;
            assert(is_digit(da[i]));
            assert(a[a.len() - da.len() + i] == da[i]);
        } else {
            assert(da =~= db) by {
                assert forall|i: int| 0 <= i < da.len() implies da[i] == db[i] by {
                    assert(a[a.len() - da.len() + i] == da[i]);
                    assert(b[b.len() - db.len() + i] == db[i]);
                }
            }
            lemma_decimal_injective(serial_a as nat, serial_b as nat);
        }
    }
}

} // verus!
