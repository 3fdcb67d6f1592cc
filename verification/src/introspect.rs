//! The export introspector: renders every registered instance's function
//! exports as rows of host-level type tags. Each parameter and result type is
//! rendered through a fixed translation table, and the tags of one signature
//! side are joined with commas in declaration order. An export with a
//! reference-typed parameter or result has no rendering; it is skipped, never
//! a crash.

use vstd::prelude::*;
use vstd::string::*;

use crate::engine::{function_exports, guest_exports};
use crate::registry::Registry;
use crate::types::{FuncSig, WasmType};

verus! {

/// One introspection row: `(instance identifier, exported function name,
/// comma-joined input type tags, comma-joined output type tags)`.
#[derive(Debug)]
pub struct ExportRow {
    pub instance_id: String,
    pub name: String,
    pub inputs: String,
    pub outputs: String,
}

/// The fixed translation table from guest types to host-level type tags.
/// Reference types have no rendering.
pub open spec fn tag_of(t: WasmType) -> Option<Seq<char>> {
    match t {
        WasmType::I32 => Some("int4"@),
        WasmType::I64 => Some("int8"@),
        WasmType::F32 => Some("numeric"@),
        WasmType::F64 => Some("numeric"@),
        WasmType::V128 => Some("decimal"@),
        WasmType::ExternRef => None,
        WasmType::FuncRef => None,
    }
}

/// The comma-joined rendering of a whole side of a signature, in declaration
/// order; nothing if any of its types has no rendering.
pub open spec fn joined_tags(ts: Seq<WasmType>) -> Option<Seq<char>>
    decreases ts.len(),
{
    if ts.len() == 0 {
        Some(Seq::empty())
    } else {
        match (tag_of(ts[0]), joined_tags(ts.drop_first())) {
            (Some(t), Some(rest)) => Some(
                if ts.len() == 1 {
                    t
                } else {
                    t + ","@ + rest
                },
            ),
            _ => None,
        }
    }
}

/// Renders one guest type as its host-level tag.
pub fn type_tag(t: &WasmType) -> (r: Option<&'static str>)
    ensures
        match r {
            Some(s) => tag_of(*t) == Some(s@),
            None => tag_of(*t) is None,
        },
{
    match *t {
        WasmType::I32 => Some("int4"),
        WasmType::I64 => Some("int8"),
        WasmType::F32 => Some("numeric"),
        WasmType::F64 => Some("numeric"),
        WasmType::V128 => Some("decimal"),
        WasmType::ExternRef => None,
        WasmType::FuncRef => None,
    }
}

fn render_from(ts: &Vec<WasmType>, i: usize) -> (r: Option<String>)
    requires
        i <= ts@.len(),
    ensures
        match r {
            Some(s) => joined_tags(ts@.skip(i as int)) == Some(s@),
            None => joined_tags(ts@.skip(i as int)) is None,
        },
    decreases ts@.len() - i as int,
{
    if i == ts.len() {
        proof {
            assert(ts@.skip(i as int) =~= Seq::<WasmType>::empty());
        }
        Some(String::new())
    } else {
        proof {
            assert(ts@.skip(i as int)[0] == ts@[i as int]);
            assert(ts@.skip(i as int).drop_first() =~= ts@.skip(i as int + 1));
        }
        let tag = match type_tag(&ts[i]) {
            Some(t) => t,
            None => {
                return None;
            },
        };
        match render_from(ts, i + 1) {
            Some(rest) => {
                let mut s = tag.to_owned();
                if i + 1 < ts.len() {
                    s.append(",");
                    s.append(rest.as_str());
                }
                Some(s)
            },
            None => None,
        }
    }
}

/// Renders a signature side as its comma-joined tag string, or nothing if a
/// type in it has no rendering.
pub fn render_tags(ts: &Vec<WasmType>) -> (r: Option<String>)
    ensures
        match r {
            Some(s) => joined_tags(ts@) == Some(s@),
            None => joined_tags(ts@) is None,
        },
{
    proof {
        assert(ts@.skip(0) =~= ts@);
    }
    render_from(ts, 0)
}

/// A row faithfully describes one function export of one registered
/// instance: the identifier is registered, the instance exports the named
/// function, and the tag strings are the rendering of its declared signature.
pub open spec fn row_valid(reg: Registry, row: ExportRow) -> bool {
    &&& reg.contains_id(row.instance_id@)
    &&& guest_exports(reg.handle_for(row.instance_id@)).contains_key(row.name@)
    &&& joined_tags(guest_exports(reg.handle_for(row.instance_id@))[row.name@].0) == Some(
        row.inputs@,
    )
    &&& joined_tags(guest_exports(reg.handle_for(row.instance_id@))[row.name@].1) == Some(
        row.outputs@,
    )
}

/// Every row faithfully describes a registered function export.
pub open spec fn rows_valid(reg: Registry, rows: Seq<ExportRow>) -> bool {
    forall|i: int| 0 <= i < rows.len() ==> row_valid(reg, #[trigger] rows[i])
}

/// Some row describes this instance and function name.
pub open spec fn row_for(rows: Seq<ExportRow>, id: Seq<char>, name: Seq<char>) -> bool {
    exists|i: int|
        0 <= i < rows.len() && (#[trigger] rows[i]).instance_id@ == id && rows[i].name@ == name
}

/// Both sides of a signature have a rendering: no reference type occurs.
pub open spec fn sig_renderable(sig: (Seq<WasmType>, Seq<WasmType>)) -> bool {
    joined_tags(sig.0) is Some && joined_tags(sig.1) is Some
}

/// No renderable function export of any registered instance is missing from
/// the rows.
pub open spec fn rows_complete(reg: Registry, rows: Seq<ExportRow>) -> bool {
    forall|e: int, k: Seq<char>|
        0 <= e < reg.records().len() && #[trigger] guest_exports(
            reg.records()[e].handle,
        ).contains_key(k) && sig_renderable(guest_exports(reg.records()[e].handle)[k])
            ==> row_for(rows, reg.records()[e].id@, k)
}

/// No two rows describe the same instance and function name: each export is
/// listed at most once.
pub open spec fn rows_distinct(rows: Seq<ExportRow>) -> bool {
    forall|i: int, j: int|
        0 <= i < j < rows.len() ==> !((#[trigger] rows[i]).instance_id@
            == (#[trigger] rows[j]).instance_id@ && rows[i].name@ == rows[j].name@)
}

/// The row's instance identifier belongs to one of the first `upto` records.
spec fn row_sourced(reg: Registry, row: ExportRow, upto: int) -> bool {
    exists|e2: int| 0 <= e2 < upto && row.instance_id@ == (#[trigger] reg.records()[e2]).id@
}

/// Every row's instance identifier belongs to one of the first `upto`
/// records.
spec fn rows_sourced(reg: Registry, rows: Seq<ExportRow>, upto: int) -> bool {
    forall|x: int| 0 <= x < rows.len() ==> row_sourced(reg, #[trigger] rows[x], upto)
}

/// The row's function name is one of the first `upto` listed export names.
spec fn row_named(row: ExportRow, list: Seq<(String, FuncSig)>, upto: int) -> bool {
    exists|y: int| 0 <= y < upto && row.name@ == (#[trigger] list[y]).0@
}

/// A row once present stays present as rows are appended.
proof fn lemma_row_for_push(rows: Seq<ExportRow>, row: ExportRow, id: Seq<char>, name: Seq<char>)
    requires
        row_for(rows, id, name),
    ensures
        row_for(rows.push(row), id, name),
{
    let i = choose|i: int|
        0 <= i < rows.len() && (#[trigger] rows[i]).instance_id@ == id && rows[i].name@ == name;
    assert(rows.push(row)[i] == rows[i]);
}

/// Completeness over the first `upto` registered records only.
spec fn rows_complete_upto(reg: Registry, rows: Seq<ExportRow>, upto: int) -> bool {
    forall|e: int, k: Seq<char>|
        0 <= e < upto && #[trigger] guest_exports(reg.records()[e].handle).contains_key(k)
            && sig_renderable(guest_exports(reg.records()[e].handle)[k]) ==> row_for(
            rows,
            reg.records()[e].id@,
            k,
        )
}

/// Builds one row per renderable function export of every registered
/// instance, walking the registry in registration order: sound — every row
/// describes a registered export — complete — no renderable export is
/// missing — and duplicate-free — no export is listed twice. An export whose
/// signature mentions a reference type is skipped, never a crash.
#[verifier::rlimit(60)]
pub fn exported_function_rows(reg: &Registry) -> (r: Vec<ExportRow>)
    requires
        reg.wf(),
    ensures
        rows_valid(*reg, r@),
        rows_complete(*reg, r@),
        rows_distinct(r@),
{
    let mut rows: Vec<ExportRow> = Vec::new();
    let n = reg.count();
    let mut e: usize = 0;
    while e < n
        invariant
            reg.wf(),
            n == reg.records().len(),
            e <= n,
            rows_valid(*reg, rows@),
            rows_complete_upto(*reg, rows@, e as int),
            rows_distinct(rows@),
            rows_sourced(*reg, rows@, e as int),
        decreases reg.records().len() - e as int,
    {
        let rec = reg.record_at(e);
        proof {
            crate::registry::lemma_registered_at(*reg, e as int);
        }
        let list = function_exports(&rec.handle);
        proof {
            assert(forall|x: int|
                0 <= x < list@.len() ==> #[trigger] guest_exports(rec.handle).contains_key(
                    list@[x].0@,
                ) && guest_exports(rec.handle)[list@[x].0@] == (
                    list@[x].1.params@,
                    list@[x].1.results@,
                ));
            assert forall|x: int| 0 <= x < rows@.len() implies (#[trigger] rows@[x]).instance_id@
                != rec.id@ by {
                let e2 = choose|e2: int|
                    0 <= e2 < e as int && rows@[x].instance_id@ == (
                    #[trigger] reg.records()[e2]).id@;
                assert(reg.records()[e2].id@ != reg.records()[e as int].id@);
            }
            assert forall|x: int| 0 <= x < rows@.len() implies row_sourced(
                *reg,
                #[trigger] rows@[x],
                e as int + 1,
            ) by {
                let e2 = choose|e2: int|
                    0 <= e2 < e as int && rows@[x].instance_id@ == (
                    #[trigger] reg.records()[e2]).id@;
                assert(0 <= e2 < e as int + 1 && rows@[x].instance_id@ == reg.records()[e2].id@);
            }
        }
        let mut k: usize = 0;
        while k < list.len()
            invariant
                reg.wf(),
                e < reg.records().len(),
                *rec == reg.records()[e as int],
                k <= list@.len(),
                rows_valid(*reg, rows@),
                rows_complete_upto(*reg, rows@, e as int),
                rows_distinct(rows@),
                rows_sourced(*reg, rows@, e as int + 1),
                reg.contains_id(rec.id@),
                rec.handle == reg.handle_for(rec.id@),
                forall|x: int|
                    0 <= x < list@.len() ==> #[trigger] guest_exports(rec.handle).contains_key(
                        list@[x].0@,
                    ) && guest_exports(rec.handle)[list@[x].0@] == (
                        list@[x].1.params@,
                        list@[x].1.results@,
                    ),
                forall|x: int, y: int| 0 <= x < y < list@.len() ==> list@[x].0@ != list@[y].0@,
                forall|key: Seq<char>|
                    #[trigger] guest_exports(rec.handle).contains_key(key) ==> exists|x: int|
                        0 <= x < list@.len() && (#[trigger] list@[x]).0@ == key,
                forall|x: int|
                    0 <= x < k as int && sig_renderable(
                        ((#[trigger] list@[x]).1.params@, list@[x].1.results@),
                    ) ==> row_for(rows@, rec.id@, list@[x].0@),
                forall|x: int|
                    0 <= x < rows@.len() && (#[trigger] rows@[x]).instance_id@ == rec.id@
                        ==> row_named(rows@[x], list@, k as int),
            decreases list@.len() - k as int,
        {
            let inputs = render_tags(&list[k].1.params);
            let outputs = render_tags(&list[k].1.results);
            match (inputs, outputs) {
                (Some(ins), Some(outs)) => {
                    let row = ExportRow {
                        instance_id: rec.id.clone(),
                        name: list[k].0.clone(),
                        inputs: ins,
                        outputs: outs,
                    };
                    let ghost prev = rows@;
                    rows.push(row);
                    proof {
                        assert forall|id: Seq<char>, nm: Seq<char>|
                            row_for(prev, id, nm) implies row_for(rows@, id, nm) by {
                            lemma_row_for_push(prev, row, id, nm);
                        }
                        assert(rows@[prev.len() as int].instance_id@ == rec.id@ && rows@[prev.len()
                            as int].name@ == list@[k as int].0@);
                        assert(row_for(rows@, rec.id@, list@[k as int].0@));
                        assert forall|i: int, j: int| 0 <= i < j < rows@.len() implies !((
                        #[trigger] rows@[i]).instance_id@ == (#[trigger] rows@[j]).instance_id@
                            && rows@[i].name@ == rows@[j].name@) by {
                            if j == prev.len() as int {
                                assert(rows@[i] == prev[i]);
                                if prev[i].instance_id@ == rec.id@ {
                                    let y = choose|y: int|
                                        0 <= y < k as int && prev[i].name@ == (
                                        #[trigger] list@[y]).0@;
                                    assert(list@[y].0@ != list@[k as int].0@);
                                }
                            } else {
                                assert(rows@[i] == prev[i] && rows@[j] == prev[j]);
                            }
                        }
                        assert(row_sourced(*reg, rows@[prev.len() as int], e as int + 1));
                        assert forall|x: int|
                            0 <= x < rows@.len() && (#[trigger] rows@[x]).instance_id@
                                == rec.id@ implies row_named(rows@[x], list@, k as int + 1) by {
                            if x < prev.len() as int {
                                let y = choose|y: int|
                                    0 <= y < k as int && rows@[x].name@ == (#[trigger] list@[y]).0@;
                                assert(0 <= y < k as int + 1 && rows@[x].name@ == list@[y].0@);
                            } else {
                                assert(rows@[x].name@ == list@[k as int].0@);
                            }
                        }
                    }
                },
                _ => {
                    proof {
                        assert forall|x: int|
                            0 <= x < rows@.len() && (#[trigger] rows@[x]).instance_id@
                                == rec.id@ implies row_named(rows@[x], list@, k as int + 1) by {
                            let y = choose|y: int|
                                0 <= y < k as int && rows@[x].name@ == (#[trigger] list@[y]).0@;
                            assert(0 <= y < k as int + 1 && rows@[x].name@ == list@[y].0@);
                        }
                    }
                },
            }
            k = k + 1;
        }
        proof {
            assert forall|k2: Seq<char>|
                #[trigger] guest_exports(reg.records()[e as int].handle).contains_key(k2)
                    && sig_renderable(
                    guest_exports(reg.records()[e as int].handle)[k2],
                ) implies row_for(rows@, reg.records()[e as int].id@, k2) by {
                let x = choose|x: int| 0 <= x < list@.len() && (#[trigger] list@[x]).0@ == k2;
                assert(guest_exports(rec.handle)[k2] == (list@[x].1.params@, list@[x].1.results@));
                assert(sig_renderable((list@[x].1.params@, list@[x].1.results@)));
                assert(row_for(rows@, rec.id@, list@[x].0@));
            }
            assert(rows_complete_upto(*reg, rows@, e as int + 1));
        }
        e = e + 1;
    }
    rows
}

} // verus!
