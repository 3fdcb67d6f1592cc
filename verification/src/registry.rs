//! The instance registry: a store of live guest instances keyed by their
//! content-addressed identifier, shared process-wide behind a verified
//! reader-writer lock — one writer at a time, many concurrent readers — and
//! the invocation bridge that reads it. A lookup hands out an owned handle
//! and releases the lock before the guest call executes, so a long-running
//! call never blocks other readers or a concurrent insert.

use vstd::prelude::*;
use vstd::rwlock::{RwLock, RwLockPredicate};

use crate::engine::{
    call_guest, engine_accepts, function_exports, guest_exports, instantiate_module,
    module_compiles, GuestHandle,
};
use crate::ident::{module_id_of, module_identifier};
use crate::introspect::{exported_function_rows, rows_complete, rows_distinct, rows_valid, ExportRow};
use crate::marshal::{interpret_results, interpret_spec, marshal_args, marshal_spec, rets_typed};
use crate::types::{ArgValue, FuncSig, InvokeError, LoadError, RetValue};

verus! {

/// One registered instance: its identifier, the live handle, and the path
/// the bytes were loaded from (diagnostic only).
pub struct InstanceRecord {
    pub id: String,
    pub handle: GuestHandle,
    pub wasm_file: String,
}

/// The registry's store: records with pairwise distinct identifiers.
/// Registering under an existing identifier replaces that record in place;
/// no record is ever removed.
pub struct Registry {
    entries: Vec<InstanceRecord>,
}

impl Registry {
    /// The registered records, in registration order.
    pub closed spec fn records(self) -> Seq<InstanceRecord> {
        self.entries@
    }

    /// Identifiers are pairwise distinct: the identifier is the key.
    pub open spec fn wf(self) -> bool {
        forall|i: int, j: int|
            0 <= i < j < self.records().len() ==> self.records()[i].id@ != self.records()[j].id@
    }

    /// Some record is registered under this identifier.
    pub open spec fn contains_id(self, id: Seq<char>) -> bool {
        exists|i: int| 0 <= i < self.records().len() && (#[trigger] self.records()[i]).id@ == id
    }

    /// The position of the record registered under this identifier.
    pub closed spec fn index_for(self, id: Seq<char>) -> int {
        choose|i: int| 0 <= i < self.records().len() && (#[trigger] self.records()[i]).id@ == id
    }

    /// The record registered under this identifier.
    pub open spec fn record_for(self, id: Seq<char>) -> InstanceRecord {
        self.records()[self.index_for(id)]
    }

    /// The live handle registered under this identifier.
    pub open spec fn handle_for(self, id: Seq<char>) -> GuestHandle {
        self.record_for(id).handle
    }

    /// An empty registry.
    pub fn new() -> (r: Registry)
        ensures
            r.wf(),
            r.records().len() == 0,
            forall|id: Seq<char>| !r.contains_id(id),
    {
        Registry { entries: Vec::new() }
    }

    /// How many records are registered.
    pub fn count(&self) -> (r: usize)
        ensures
            r == self.records().len(),
    {
        self.entries.len()
    }

    /// The record at a position, in registration order.
    pub fn record_at(&self, i: usize) -> (r: &InstanceRecord)
        requires
            i < self.records().len(),
        ensures
            *r == self.records()[i as int],
    {
        &self.entries[i]
    }

    /// Shared-access lookup of the record under an identifier.
    pub fn lookup(&self, id: &String) -> (r: Option<&InstanceRecord>)
        requires
            self.wf(),
        ensures
            match r {
                Some(rec) => self.contains_id(id@) && *rec == self.record_for(id@) && rec.id@
                    == id@,
                None => !self.contains_id(id@),
            },
    {
        let mut i: usize = 0;
        while i < self.entries.len()
            invariant
                self.wf(),
                i <= self.records().len(),
                forall|j: int| 0 <= j < i as int ==> (#[trigger] self.records()[j]).id@ != id@,
            decreases self.records().len() - i as int,
        {
            if self.entries[i].id == *id {
                proof {
                    lemma_registered_at(*self, i as int);
                }
                return Some(&self.entries[i]);
            }
            i = i + 1;
        }
        None
    }

    /// Exclusive-access insert: replaces any record under the same
    /// identifier, otherwise appends; no other record changes.
    pub fn insert(&mut self, rec: InstanceRecord)
        requires
            old(self).wf(),
        ensures
            final(self).wf(),
            final(self).contains_id(rec.id@),
            final(self).record_for(rec.id@) == rec,
            forall|k: Seq<char>|
                k != rec.id@ ==> (#[trigger] final(self).contains_id(k) <==> old(
                    self,
                ).contains_id(k)),
            forall|k: Seq<char>|
                k != rec.id@ && old(self).contains_id(k) ==> #[trigger] final(self).record_for(k)
                    == old(self).record_for(k),
    {
        let ghost pre = *self;
        let mut i: usize = 0;
        while i < self.entries.len()
            invariant
                pre.wf(),
                pre == *old(self),
                *self == pre,
                i <= self.records().len(),
                forall|j: int| 0 <= j < i as int ==> (#[trigger] self.records()[j]).id@ != rec.id@,
            decreases self.records().len() - i as int,
        {
            if self.entries[i].id == rec.id {
                let ghost gi = i as int;
                self.entries.set(i, rec);
                proof {
                    lemma_after_replace(pre, *self, gi, rec);
                }
                return ;
            }
            i = i + 1;
        }
        self.entries.push(rec);
        proof {
            lemma_after_append(pre, *self, rec);
        }
    }
}

/// What validating an invocation request against a registry state yields:
/// the unknown identifier is reported first, then the unknown function name,
/// then the arity and parameter-type checks of marshalling; when everything
/// is in order, the coerced argument list.
pub open spec fn validation_spec(
    reg: Registry,
    id: Seq<char>,
    fname: Seq<char>,
    args: Seq<i64>,
) -> Result<Seq<ArgValue>, InvokeError> {
    if !reg.contains_id(id) {
        Err(InvokeError::InstanceNotFound)
    } else if !guest_exports(reg.handle_for(id)).contains_key(fname) {
        Err(InvokeError::FunctionNotFound)
    } else {
        marshal_spec(guest_exports(reg.handle_for(id))[fname].0, args)
    }
}

/// What an invocation's outcome means against a registry state: every
/// validation failure is reported exactly as `validation_spec` says; past
/// validation, the only failure is a guest fault, and a success carries the
/// interpretation of some result list of the function's declared result
/// types.
pub open spec fn invoke_post(
    reg: Registry,
    id: Seq<char>,
    fname: Seq<char>,
    args: Seq<i64>,
    r: Result<Option<i64>, InvokeError>,
) -> bool {
    match validation_spec(reg, id, fname, args) {
        Err(e) => r == Err::<Option<i64>, InvokeError>(e),
        Ok(_) => match r {
            Err(e) => e matches InvokeError::ExecutionFault(_),
            Ok(v) => exists|rets: Seq<RetValue>|
                rets_typed(rets, guest_exports(reg.handle_for(id))[fname].1) && v
                    == #[trigger] interpret_spec(rets),
        },
    }
}

/// The scalar the host sees when every failure collapses to "no value".
pub open spec fn scalar_of(r: Result<Option<i64>, InvokeError>) -> Option<i64> {
    match r {
        Ok(v) => v,
        Err(_) => None,
    }
}

/// What a "no value on failure" entry point guarantees: its result collapses
/// an invocation outcome that is correct against some well-formed registry
/// state — the one the lookup snapshotted while it held shared access.
pub open spec fn entry_post(id: Seq<char>, fname: Seq<char>, args: Seq<i64>, r: Option<i64>) -> bool {
    exists|reg: Registry, res: Result<Option<i64>, InvokeError>|
        reg.wf() && #[trigger] invoke_post(reg, id, fname, args, res) && r == scalar_of(res)
}

fn find_export(list: &Vec<(String, FuncSig)>, name: &String) -> (r: Option<usize>)
    ensures
        match r {
            Some(i) => i < list@.len() && list@[i as int].0@ == name@,
            None => forall|j: int| 0 <= j < list@.len() ==> (#[trigger] list@[j]).0@ != name@,
        },
{
    let mut i: usize = 0;
    while i < list.len()
        invariant
            i <= list@.len(),
            forall|j: int| 0 <= j < i as int ==> (#[trigger] list@[j]).0@ != name@,
        decreases list@.len() - i as int,
    {
        if list[i].0 == *name {
            return Some(i);
        }
        i = i + 1;
    }
    None
}

/// Validates a request against one registry state: looks up the instance,
/// then the exported function, then marshals the arguments; on success hands
/// back an owned handle to the instance together with the coerced argument
/// list, so the caller can release its lock before executing.
fn prepare_invoke(
    reg: &Registry,
    instance_id: &String,
    function_name: &String,
    arguments: &Vec<i64>,
) -> (r: Result<(GuestHandle, Vec<ArgValue>), InvokeError>)
    requires
        reg.wf(),
    ensures
        match r {
            Ok(p) => validation_spec(*reg, instance_id@, function_name@, arguments@) == Ok::<
                Seq<ArgValue>,
                InvokeError,
            >(p.1@) && guest_exports(p.0) == guest_exports(reg.handle_for(instance_id@)),
            Err(e) => validation_spec(*reg, instance_id@, function_name@, arguments@) == Err::<
                Seq<ArgValue>,
                InvokeError,
            >(e),
        },
{
    let rec = match reg.lookup(instance_id) {
        Some(rec) => rec,
        None => {
            return Err(InvokeError::InstanceNotFound);
        },
    };
    let handle = rec.handle.duplicate();
    let list = function_exports(&handle);
    let idx = match find_export(&list, function_name) {
        Some(i) => i,
        None => {
            proof {
                if guest_exports(handle).contains_key(function_name@) {
                    let w = choose|x: int|
                        0 <= x < list@.len() && (#[trigger] list@[x]).0@ == function_name@;
                    assert(false);
                }
            }
            return Err(InvokeError::FunctionNotFound);
        },
    };
    match marshal_args(&list[idx].1.params, arguments) {
        Ok(vals) => Ok((handle, vals)),
        Err(e) => Err(e),
    }
}

/// The well-formedness discipline every registry state behind the lock
/// satisfies.
pub struct RegistryWf {}

impl RwLockPredicate<Registry> for RegistryWf {
    open spec fn inv(self, v: Registry) -> bool {
        v.wf()
    }
}

/// The process-wide registry: one explicitly constructed instance, shared by
/// reference with every caller, guarded by a verified reader-writer lock.
/// An insert excludes all concurrent reads and other inserts; lookups and
/// introspection run concurrently with each other. Guest execution happens
/// outside any lock: a lookup snapshots an owned handle and releases the
/// lock first, so a record replaced mid-call does not disturb the call
/// already running against the handle it captured.
pub struct SharedRegistry {
    lock: RwLock<Registry, RegistryWf>,
}

impl SharedRegistry {
    /// An empty shared registry.
    pub fn new() -> SharedRegistry {
        SharedRegistry { lock: RwLock::new(Registry::new(), Ghost(RegistryWf {})) }
    }

    /// Loads a module from its raw byte content: compiles and instantiates
    /// it, computes its content-addressed identifier, and registers the
    /// record under that identifier, replacing any record with the same
    /// content. Loading succeeds exactly when the engine accepts the bytes,
    /// and then returns their content-addressed identifier; bytes that do
    /// not compile are reported as exactly a compile error, and a valid
    /// module the engine still rejects as exactly an instantiation error —
    /// a recoverable condition, never fatal.
    pub fn load_module_bytes(&self, bytes: &Vec<u8>, wasm_file: String) -> (r: Result<
        String,
        LoadError,
    >)
        ensures
            r matches Ok(id) ==> id@ == module_id_of(bytes@),
            r is Ok <==> engine_accepts(bytes@),
            (r matches Err(e) && e matches LoadError::CompileError(_)) <==> !module_compiles(
                bytes@,
            ),
            (r matches Err(e) && e matches LoadError::InstantiationError(_)) <==> (
            module_compiles(bytes@) && !engine_accepts(bytes@)),
    {
        let handle = match instantiate_module(bytes) {
            Ok(h) => h,
            Err(e) => {
                return Err(e);
            },
        };
        let id = module_identifier(bytes);
        let record = InstanceRecord { id: id.clone(), handle, wasm_file };
        let (mut reg, write_handle) = self.lock.acquire_write();
        reg.insert(record);
        write_handle.release_write(reg);
        Ok(id)
    }

    /// Invokes `function_name` on the instance registered under
    /// `instance_id` with the given 64-bit integer arguments. The registry
    /// lock covers only the lookup and validation; the guest call itself
    /// executes against the snapshotted handle after the lock is released.
    pub fn invoke(
        &self,
        instance_id: &String,
        function_name: &String,
        arguments: &Vec<i64>,
    ) -> (r: Result<Option<i64>, InvokeError>)
        ensures
            exists|reg: Registry|
                reg.wf() && #[trigger] invoke_post(
                    reg,
                    instance_id@,
                    function_name@,
                    arguments@,
                    r,
                ),
    {
        let read_handle = self.lock.acquire_read();
        let ghost regv = read_handle.view();
        let prep = prepare_invoke(read_handle.borrow(), instance_id, function_name, arguments);
        read_handle.release_read();
        match prep {
            Err(e) => {
                let r = Err::<Option<i64>, InvokeError>(e);
                proof {
                    assert(invoke_post(regv, instance_id@, function_name@, arguments@, r));
                }
                r
            },
            Ok((handle, vals)) => {
                match call_guest(&handle, function_name.as_str(), &vals) {
                    Err(msg) => {
                        let r = Err::<Option<i64>, InvokeError>(InvokeError::ExecutionFault(msg));
                        proof {
                            assert(invoke_post(regv, instance_id@, function_name@, arguments@, r));
                        }
                        r
                    },
                    Ok(rets) => {
                        let out = interpret_results(&rets);
                        let r = Ok::<Option<i64>, InvokeError>(out);
                        proof {
                            assert(rets_typed(
                                rets@,
                                guest_exports(regv.handle_for(instance_id@))[function_name@].1,
                            ) && out == interpret_spec(rets@));
                            assert(invoke_post(regv, instance_id@, function_name@, arguments@, r));
                        }
                        r
                    },
                }
            },
        }
    }

    /// Invokes and collapses every failure to "no value", the shape the
    /// host's fixed-arity entry points expose.
    pub fn invoke_function(
        &self,
        instance_id: String,
        function_name: String,
        arguments: &Vec<i64>,
    ) -> (r: Option<i64>)
        ensures
            entry_post(instance_id@, function_name@, arguments@, r),
    {
        let res = self.invoke(&instance_id, &function_name, arguments);
        let r = match res {
            Ok(v) => v,
            Err(_) => None,
        };
        proof {
            let reg = choose|reg: Registry|
                reg.wf() && #[trigger] invoke_post(
                    reg,
                    instance_id@,
                    function_name@,
                    arguments@,
                    res,
                );
            assert(reg.wf() && invoke_post(reg, instance_id@, function_name@, arguments@, res) && r
                == scalar_of(res));
        }
        r
    }

    /// Builds the introspection rows for every registered instance, under
    /// shared access.
    pub fn list_exported_functions(&self) -> (r: Vec<ExportRow>)
        ensures
            rows_distinct(r@),
            exists|reg: Registry|
                reg.wf() && #[trigger] rows_valid(reg, r@) && rows_complete(reg, r@),
    {
        let read_handle = self.lock.acquire_read();
        let ghost regv = read_handle.view();
        let rows = exported_function_rows(read_handle.borrow());
        read_handle.release_read();
        proof {
            assert(regv.wf() && rows_valid(regv, rows@) && rows_complete(regv, rows@)
                && rows_distinct(rows@));
        }
        rows
    }
}

/// Invoking an unknown instance identifier always fails with
/// `InstanceNotFound`, whatever the function name and arguments.
pub proof fn lemma_unknown_instance(
    reg: Registry,
    id: Seq<char>,
    fname: Seq<char>,
    args: Seq<i64>,
    r: Result<Option<i64>, InvokeError>,
)
    requires
        !reg.contains_id(id),
        invoke_post(reg, id, fname, args, r),
    ensures
        r == Err::<Option<i64>, InvokeError>(InvokeError::InstanceNotFound),
{
}

/// Invoking an unknown function name on a known instance always fails with
/// `FunctionNotFound`, whatever the arguments.
pub proof fn lemma_unknown_function(
    reg: Registry,
    id: Seq<char>,
    fname: Seq<char>,
    args: Seq<i64>,
    r: Result<Option<i64>, InvokeError>,
)
    requires
        reg.contains_id(id),
        !guest_exports(reg.handle_for(id)).contains_key(fname),
        invoke_post(reg, id, fname, args, r),
    ensures
        r == Err::<Option<i64>, InvokeError>(InvokeError::FunctionNotFound),
{
}

/// Invoking with an argument count different from the declared parameter
/// count always fails with `ArityMismatch`: no partial call is attempted.
pub proof fn lemma_invoke_arity_mismatch(
    reg: Registry,
    id: Seq<char>,
    fname: Seq<char>,
    args: Seq<i64>,
    r: Result<Option<i64>, InvokeError>,
)
    requires
        reg.contains_id(id),
        guest_exports(reg.handle_for(id)).contains_key(fname),
        guest_exports(reg.handle_for(id))[fname].0.len() != args.len(),
        invoke_post(reg, id, fname, args, r),
    ensures
        r == Err::<Option<i64>, InvokeError>(InvokeError::ArityMismatch),
{
}

/// Invoking a function whose declared signature includes a floating-point,
/// vector or reference parameter always fails with
/// `UnsupportedArgumentType` once the arity matches; the guest is never
/// called for it, so no execution fault can be reported.
pub proof fn lemma_invoke_unsupported_parameter(
    reg: Registry,
    id: Seq<char>,
    fname: Seq<char>,
    args: Seq<i64>,
    bad: int,
    r: Result<Option<i64>, InvokeError>,
)
    requires
        reg.contains_id(id),
        guest_exports(reg.handle_for(id)).contains_key(fname),
        guest_exports(reg.handle_for(id))[fname].0.len() == args.len(),
        0 <= bad < args.len(),
        !crate::marshal::is_integer_type(guest_exports(reg.handle_for(id))[fname].0[bad]),
        invoke_post(reg, id, fname, args, r),
    ensures
        r == Err::<Option<i64>, InvokeError>(InvokeError::UnsupportedArgumentType),
{
    crate::marshal::lemma_unsupported_parameter(
        guest_exports(reg.handle_for(id))[fname].0,
        args,
        bad,
    );
}

/// A record's own identifier always finds that very record: identifiers are
/// distinct, so the position holding an identifier is unique.
pub proof fn lemma_registered_at(reg: Registry, i: int)
    requires
        reg.wf(),
        0 <= i < reg.records().len(),
    ensures
        reg.contains_id(reg.records()[i].id@),
        reg.record_for(reg.records()[i].id@) == reg.records()[i],
        reg.index_for(reg.records()[i].id@) == i,
{
    let id = reg.records()[i].id@;
    assert(reg.contains_id(id));
    let j = reg.index_for(id);
    assert(0 <= j < reg.records().len() && reg.records()[j].id@ == id);
    if i < j {
        assert(reg.records()[i].id@ != reg.records()[j].id@);
    } else if j < i {
        assert(reg.records()[j].id@ != reg.records()[i].id@);
    }
}

proof fn lemma_after_replace(pre: Registry, post: Registry, i: int, rec: InstanceRecord)
    requires
        pre.wf(),
        0 <= i < pre.records().len(),
        pre.records()[i].id@ == rec.id@,
        post.records() == pre.records().update(i, rec),
    ensures
        post.wf(),
        post.contains_id(rec.id@),
        post.record_for(rec.id@) == rec,
        forall|k: Seq<char>|
            k != rec.id@ ==> (#[trigger] post.contains_id(k) <==> pre.contains_id(k)),
        forall|k: Seq<char>|
            k != rec.id@ && pre.contains_id(k) ==> #[trigger] post.record_for(k)
                == pre.record_for(k),
{
    assert forall|x: int| 0 <= x < post.records().len() implies (#[trigger] post.records()[x]).id@
        == pre.records()[x].id@ by {
        if x == i {
            assert(post.records()[x].id@ == rec.id@);
        }
    }
    assert(post.wf());
    assert(post.records()[i].id@ == rec.id@);
    lemma_registered_at(post, i);
    assert forall|k: Seq<char>| k != rec.id@ implies (#[trigger] post.contains_id(k)
        <==> pre.contains_id(k)) by {
        if post.contains_id(k) {
            let w = choose|x: int|
                0 <= x < post.records().len() && (#[trigger] post.records()[x]).id@ == k;
            assert(pre.records()[w].id@ == k);
            assert(pre.contains_id(k));
        }
        if pre.contains_id(k) {
            let w = choose|x: int|
                0 <= x < pre.records().len() && (#[trigger] pre.records()[x]).id@ == k;
            assert(post.records()[w].id@ == k);
            assert(post.contains_id(k));
        }
    }
    assert forall|k: Seq<char>| k != rec.id@ && pre.contains_id(k) implies #[trigger] post
        .record_for(k) == pre.record_for(k) by {
        let w = pre.index_for(k);
        assert(0 <= w < pre.records().len() && pre.records()[w].id@ == k);
        assert(w != i);
        assert(post.records()[w] == pre.records()[w]);
        lemma_registered_at(post, w);
        lemma_registered_at(pre, w);
    }
}

proof fn lemma_after_append(pre: Registry, post: Registry, rec: InstanceRecord)
    requires
        pre.wf(),
        forall|j: int| 0 <= j < pre.records().len() ==> (#[trigger] pre.records()[j]).id@ != rec.id@,
        post.records() == pre.records().push(rec),
    ensures
        post.wf(),
        post.contains_id(rec.id@),
        post.record_for(rec.id@) == rec,
        forall|k: Seq<char>|
            k != rec.id@ ==> (#[trigger] post.contains_id(k) <==> pre.contains_id(k)),
        forall|k: Seq<char>|
            k != rec.id@ && pre.contains_id(k) ==> #[trigger] post.record_for(k)
                == pre.record_for(k),
{
    let n = pre.records().len() as int;
    assert(post.records()[n] == rec);
    assert forall|x: int| 0 <= x < n implies #[trigger] post.records()[x] == pre.records()[x] by {}
    assert(post.wf());
    lemma_registered_at(post, n);
    assert forall|k: Seq<char>| k != rec.id@ implies (#[trigger] post.contains_id(k)
        <==> pre.contains_id(k)) by {
        if post.contains_id(k) {
            let w = choose|x: int|
                0 <= x < post.records().len() && (#[trigger] post.records()[x]).id@ == k;
            assert(w != n);
            assert(pre.records()[w].id@ == k);
            assert(pre.contains_id(k));
        }
        if pre.contains_id(k) {
            let w = choose|x: int|
                0 <= x < pre.records().len() && (#[trigger] pre.records()[x]).id@ == k;
            assert(post.records()[w].id@ == k);
            assert(post.contains_id(k));
        }
    }
    assert forall|k: Seq<char>| k != rec.id@ && pre.contains_id(k) implies #[trigger] post
        .record_for(k) == pre.record_for(k) by {
        let w = pre.index_for(k);
        assert(0 <= w < pre.records().len() && pre.records()[w].id@ == k);
        assert(post.records()[w] == pre.records()[w]);
        lemma_registered_at(post, w);
        lemma_registered_at(pre, w);
    }
}

} // verus!
