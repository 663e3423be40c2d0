//! Exported-interface validation.
//!
//! A caller hands in the interface it expects of a callee module: an ordered
//! list of named function signatures.  The validator compares it against the
//! module's actual exports and reports every expected function that is missing
//! or whose signature does not structurally match, in the order the
//! expectation was given.  A present name with a different signature counts as
//! not implemented; when several exports share a name, the last one wins.

use vstd::prelude::*;
use vstd::string::StrSliceExecFns;
use vstd::string::StringExecFns;
use vstd::utf8::decode_utf8;
use vstd::utf8::valid_utf8;
use crate::checksum::CHECKSUM_LENGTH;
use crate::checksum::Checksum;
use crate::envelope::dec_binary_list;
use crate::envelope::decode_binary_list;
use crate::envelope::string_from_utf8;
use crate::errors::LinkError;
use crate::errors::is_serialization;
use crate::errors::is_unset;

verus! {

/// One WASM value type, as it appears in an exported function signature.
#[derive(Clone, Copy, Debug, PartialEq, Eq, Structural)]
pub enum ValKind {
    I32,
    I64,
    F32,
    F64,
    V128,
    ExternRef,
    FuncRef,
}

/// A function's public type: parameter kinds in order, result kinds in order.
#[derive(Debug)]
pub struct FuncSig {
    pub params: Vec<ValKind>,
    pub results: Vec<ValKind>,
}

/// Mathematical model of a function signature.
#[verifier::ext_equal]
pub ghost struct FuncSigView {
    pub params: Seq<ValKind>,
    pub results: Seq<ValKind>,
}

impl View for FuncSig {
    type V = FuncSigView;

    open spec fn view(&self) -> FuncSigView {
        FuncSigView { params: self.params@, results: self.results@ }
    }
}

impl DeepView for FuncSig {
    type V = FuncSigView;

    open spec fn deep_view(&self) -> FuncSigView {
        self@
    }
}

/// One exported function: its name and its signature.
#[derive(Debug)]
pub struct ExportEntry {
    pub name: String,
    pub sig: FuncSig,
}

/// Mathematical model of an export entry.
#[verifier::ext_equal]
pub ghost struct ExportEntryView {
    pub name: Seq<char>,
    pub sig: FuncSigView,
}

impl View for ExportEntry {
    type V = ExportEntryView;

    open spec fn view(&self) -> ExportEntryView {
        ExportEntryView { name: self.name@, sig: self.sig@ }
    }
}

impl DeepView for ExportEntry {
    type V = ExportEntryView;

    open spec fn deep_view(&self) -> ExportEntryView {
        self@
    }
}

/// Display text of one value kind.
pub open spec fn kind_text(k: ValKind) -> Seq<char> {
    match k {
        ValKind::I32 => "i32"@,
        ValKind::I64 => "i64"@,
        ValKind::F32 => "f32"@,
        ValKind::F64 => "f64"@,
        ValKind::V128 => "v128"@,
        ValKind::ExternRef => "externref"@,
        ValKind::FuncRef => "funcref"@,
    }
}

/// Display text of one value kind.
pub fn kind_str(k: &ValKind) -> (r: &'static str)
    ensures
        r@ == kind_text(*k),
{
    match k {
        ValKind::I32 => "i32",
        ValKind::I64 => "i64",
        ValKind::F32 => "f32",
        ValKind::F64 => "f64",
        ValKind::V128 => "v128",
        ValKind::ExternRef => "externref",
        ValKind::FuncRef => "funcref",
    }
}

/// The kinds from index `i` on, joined with commas.
pub open spec fn join_from(ks: Seq<ValKind>, i: nat) -> Seq<char>
    decreases ks.len() - i,
{
    if i >= ks.len() {
        Seq::empty()
    } else if i + 1 == ks.len() {
        kind_text(ks[i as int])
    } else {
        kind_text(ks[i as int]) + ","@ + join_from(ks, i + 1)
    }
}

/// Display text of a whole signature: `(params)->result`, where a single
/// result stands bare and any other result arity is parenthesized.
pub open spec fn sig_text(s: FuncSigView) -> Seq<char> {
    "("@ + join_from(s.params, 0) + ")->"@ + if s.results.len() == 1 {
        kind_text(s.results[0])
    } else {
        "("@ + join_from(s.results, 0) + ")"@
    }
}

/// Appends the comma-joined kinds to `out`.
fn push_kinds(out: &mut String, ks: &Vec<ValKind>)
    ensures
        final(out)@ == old(out)@ + join_from(ks@, 0),
{
    let mut i: usize = 0;
    while i < ks.len()
        invariant
            i <= ks@.len(),
            out@ + join_from(ks@, i as nat) == old(out)@ + join_from(ks@, 0),
        decreases ks@.len() - i,
    {
        let ghost out0 = out@;
        out.append(kind_str(&ks[i]));
        if i + 1 < ks.len() {
            out.append(",");
            proof {
                assert(out@ =~= out0 + (kind_text(ks@[i as int]) + ","@));
                assert((out0 + (kind_text(ks@[i as int]) + ","@)) + join_from(ks@, (i + 1) as nat)
                    =~= out0 + (kind_text(ks@[i as int]) + ","@ + join_from(ks@, (i + 1) as nat)));
            }
        } else {
            proof {
                assert(join_from(ks@, (i + 1) as nat) =~= Seq::<char>::empty());
                assert((out0 + kind_text(ks@[i as int])) + join_from(ks@, (i + 1) as nat) =~= out0
                    + kind_text(ks@[i as int]));
            }
        }
        i = i + 1;
    }
    proof {
        assert(join_from(ks@, ks@.len() as nat) =~= Seq::<char>::empty());
        assert(out@ + Seq::<char>::empty() =~= out@);
    }
}

/// Builds the display string of a signature.
pub fn sig_string(sig: &FuncSig) -> (r: String)
    ensures
        r@ == sig_text(sig@),
{
    let mut out = String::from_str("(");
    push_kinds(&mut out, &sig.params);
    out.append(")->");
    if sig.results.len() == 1 {
        out.append(kind_str(&sig.results[0]));
        proof {
            assert(out@ =~= sig_text(sig@));
        }
    } else {
        out.append("(");
        push_kinds(&mut out, &sig.results);
        out.append(")");
        proof {
            assert(out@ =~= sig_text(sig@));
        }
    }
    out
}

/// Structural equality of two kind sequences.
fn kinds_eq(a: &Vec<ValKind>, b: &Vec<ValKind>) -> (r: bool)
    ensures
        r == (a@ == b@),
{
    if a.len() != b.len() {
        return false;
    }
    let mut i: usize = 0;
    while i < a.len()
        invariant
            i <= a@.len(),
            a@.len() == b@.len(),
            forall|j: int| 0 <= j < i ==> a@[j] == b@[j],
        decreases a@.len() - i,
    {
        if a[i] != b[i] {
            return false;
        }
        i = i + 1;
    }
    proof {
        assert(a@ =~= b@);
    }
    true
}

/// Structural equality of two signatures: same parameter kinds in order and
/// same result kinds in order.
pub fn sig_eq(a: &FuncSig, b: &FuncSig) -> (r: bool)
    ensures
        r == (a@ == b@),
{
    let p = kinds_eq(&a.params, &b.params);
    let q = kinds_eq(&a.results, &b.results);
    proof {
        if a@.params == b@.params && a@.results == b@.results {
            assert(a@ =~= b@);
        }
    }
    p && q
}

/// The signature exported under `name`; when several exports share the name,
/// the last one wins.
pub open spec fn lookup(exports: Seq<ExportEntryView>, name: Seq<char>) -> Option<FuncSigView>
    decreases exports.len(),
{
    if exports.len() == 0 {
        None
    } else if exports.last().name == name {
        Some(exports.last().sig)
    } else {
        lookup(exports.drop_last(), name)
    }
}

/// An expected entry is implemented when the module exports its name and the
/// signature found there is structurally equal.
pub open spec fn implemented(e: ExportEntryView, exports: Seq<ExportEntryView>) -> bool {
    lookup(exports, e.name) == Some(e.sig)
}

/// Finds the index whose entry `lookup` selects for `name`.
fn lookup_export(exports: &Vec<ExportEntry>, name: &String) -> (r: Option<usize>)
    ensures
        match r {
            Some(i) => i < exports@.len() && lookup(exports.deep_view(), name@) == Some(
                exports.deep_view()[i as int].sig,
            ),
            None => lookup(exports.deep_view(), name@) is None,
        },
{
    let ghost dv = exports.deep_view();
    let mut i: usize = exports.len();
    proof {
        assert(dv.subrange(0, i as int) =~= dv);
    }
    while i > 0
        invariant
            i <= exports@.len(),
            dv == exports.deep_view(),
            dv.len() == exports@.len(),
            lookup(dv, name@) == lookup(dv.subrange(0, i as int), name@),
        decreases i,
    {
        i = i - 1;
        proof {
            assert(dv.subrange(0, i + 1).last() == dv[i as int]);
            assert(dv.subrange(0, i + 1).drop_last() =~= dv.subrange(0, i as int));
            assert(dv[i as int] == exports@[i as int]@);
        }
        if exports[i].name == *name {
            return Some(i);
        }
    }
    proof {
        assert(dv.subrange(0, 0) =~= Seq::<ExportEntryView>::empty());
    }
    None
}

/// Whether the module's exports implement the expected entry.
pub fn is_implemented(e: &ExportEntry, exports: &Vec<ExportEntry>) -> (r: bool)
    ensures
        r == implemented(e@, exports.deep_view()),
{
    match lookup_export(exports, &e.name) {
        Some(i) => sig_eq(&exports[i].sig, &e.sig),
        None => false,
    }
}

/// Every expected entry with index below `n` is implemented.
pub open spec fn all_implemented_upto(
    expected: Seq<ExportEntryView>,
    exports: Seq<ExportEntryView>,
    n: int,
) -> bool {
    forall|j: int| 0 <= j < n ==> #[trigger] implemented(expected[j], exports)
}

/// Every expected entry is implemented.
pub open spec fn all_implemented(
    expected: Seq<ExportEntryView>,
    exports: Seq<ExportEntryView>,
) -> bool {
    all_implemented_upto(expected, exports, expected.len() as int)
}

/// Display text of one missing entry: `name: signature`.
pub open spec fn entry_text(e: ExportEntryView) -> Seq<char> {
    e.name + ": "@ + sig_text(e.sig)
}

/// The not-implemented entries of `expected` from index `i` on, each shown as
/// `entry_text`, joined with `", "`; `first` records whether no entry has been
/// emitted yet.
pub open spec fn rest_text(
    expected: Seq<ExportEntryView>,
    exports: Seq<ExportEntryView>,
    i: nat,
    first: bool,
) -> Seq<char>
    decreases expected.len() - i,
{
    if i >= expected.len() {
        Seq::empty()
    } else if implemented(expected[i as int], exports) {
        rest_text(expected, exports, i + 1, first)
    } else if first {
        entry_text(expected[i as int]) + rest_text(expected, exports, i + 1, false)
    } else {
        ", "@ + entry_text(expected[i as int]) + rest_text(expected, exports, i + 1, false)
    }
}

/// `None` when the module exports everything the caller asked for, otherwise
/// the message naming each entry that is missing or carries another
/// signature, in the caller's order.
pub open spec fn spec_validate(
    expected: Seq<ExportEntryView>,
    exports: Seq<ExportEntryView>,
) -> Option<Seq<char>> {
    if all_implemented(expected, exports) {
        None
    } else {
        Some("The following functions are not implemented: "@ + rest_text(expected, exports, 0, true))
    }
}

/// Compares an expected interface against a module's exports.  Yields `None`
/// when every expected function is exported with a structurally equal
/// signature, and otherwise the message enumerating the offenders.  Pure:
/// no state is touched and no gas is charged.
pub fn validate_interface(expected: &Vec<ExportEntry>, exports: &Vec<ExportEntry>) -> (r: Option<
    String,
>)
    ensures
        match r {
            None => spec_validate(expected.deep_view(), exports.deep_view()) is None,
            Some(msg) => spec_validate(expected.deep_view(), exports.deep_view()) == Some(msg@),
        },
{
    let ghost dve = expected.deep_view();
    let ghost dvx = exports.deep_view();
    let mut out = String::from_str("The following functions are not implemented: ");
    let ghost header = out@;
    let mut found = false;
    let mut i: usize = 0;
    while i < expected.len()
        invariant
            i <= expected@.len(),
            dve == expected.deep_view(),
            dvx == exports.deep_view(),
            dve.len() == expected@.len(),
            found == !all_implemented_upto(dve, dvx, i as int),
            out@ + rest_text(dve, dvx, i as nat, !found) == header + rest_text(dve, dvx, 0, true),
        decreases expected@.len() - i,
    {
        proof {
            assert(dve[i as int] == expected@[i as int]@);
        }
        let ghost out0 = out@;
        let ghost found0 = found;
        if is_implemented(&expected[i], exports) {
            proof {
                assert(rest_text(dve, dvx, i as nat, !found) == rest_text(
                    dve,
                    dvx,
                    (i + 1) as nat,
                    !found,
                ));
                assert(all_implemented_upto(dve, dvx, i + 1) == all_implemented_upto(
                    dve,
                    dvx,
                    i as int,
                ));
            }
        } else {
            if found {
                out.append(", ");
            }
            out.append(expected[i].name.as_str());
            out.append(": ");
            let s = sig_string(&expected[i].sig);
            out.append(s.as_str());
            found = true;
            proof {
                let e = dve[i as int];
                let tail = rest_text(dve, dvx, (i + 1) as nat, false);
                if found0 {
                    assert(out@ =~= out0 + (", "@ + entry_text(e)));
                    assert(rest_text(dve, dvx, i as nat, false) == ", "@ + entry_text(e) + tail);
                    assert((out0 + (", "@ + entry_text(e))) + tail =~= out0 + (", "@ + entry_text(
                        e,
                    ) + tail));
                } else {
                    assert(out@ =~= out0 + entry_text(e));
                    assert(rest_text(dve, dvx, i as nat, true) == entry_text(e) + tail);
                    assert((out0 + entry_text(e)) + tail =~= out0 + (entry_text(e) + tail));
                }
                assert(!all_implemented_upto(dve, dvx, i + 1));
            }
        }
        i = i + 1;
    }
    proof {
        assert(rest_text(dve, dvx, dve.len() as nat, !found) =~= Seq::<char>::empty());
        assert(out@ + Seq::<char>::empty() =~= out@);
        assert(out@ == header + rest_text(dve, dvx, 0, true));
    }
    if found {
        Some(out)
    } else {
        None
    }
}

/// The byte tag of one value kind in the envelope format.
pub open spec fn kind_of_byte(b: u8) -> Option<ValKind> {
    if b == 0 {
        Some(ValKind::I32)
    } else if b == 1 {
        Some(ValKind::I64)
    } else if b == 2 {
        Some(ValKind::F32)
    } else if b == 3 {
        Some(ValKind::F64)
    } else if b == 4 {
        Some(ValKind::V128)
    } else if b == 5 {
        Some(ValKind::ExternRef)
    } else if b == 6 {
        Some(ValKind::FuncRef)
    } else {
        None
    }
}

/// The envelope tag of one value kind.
pub open spec fn byte_of_kind(k: ValKind) -> u8 {
    match k {
        ValKind::I32 => 0u8,
        ValKind::I64 => 1u8,
        ValKind::F32 => 2u8,
        ValKind::F64 => 3u8,
        ValKind::V128 => 4u8,
        ValKind::ExternRef => 5u8,
        ValKind::FuncRef => 6u8,
    }
}

/// The kinds read from a run of tag bytes; `None` when any byte is no tag.
pub open spec fn kinds_of_bytes(b: Seq<u8>) -> Option<Seq<ValKind>> {
    if forall|i: int| 0 <= i < b.len() ==> kind_of_byte(#[trigger] b[i]) is Some {
        Some(Seq::new(b.len(), |i: int| kind_of_byte(b[i]).unwrap()))
    } else {
        None
    }
}

/// The tag bytes of a kind sequence.
pub open spec fn bytes_of_kinds(ks: Seq<ValKind>) -> Seq<u8> {
    Seq::new(ks.len(), |i: int| byte_of_kind(ks[i]))
}

/// An expected interface is a list whose items come in threes: UTF-8 name,
/// parameter tags, result tags.  This reads entry `e` of such a list.
pub open spec fn entry_of_items(items: Seq<Seq<u8>>, e: int) -> Option<ExportEntryView> {
    if valid_utf8(items[3 * e]) && kinds_of_bytes(items[3 * e + 1]) is Some && kinds_of_bytes(
        items[3 * e + 2],
    ) is Some {
        Some(
            ExportEntryView {
                name: decode_utf8(items[3 * e]),
                sig: FuncSigView {
                    params: kinds_of_bytes(items[3 * e + 1]).unwrap(),
                    results: kinds_of_bytes(items[3 * e + 2]).unwrap(),
                },
            },
        )
    } else {
        None
    }
}

/// Reference semantics of a whole-buffer expected interface.
pub open spec fn dec_interface(b: Seq<u8>) -> Option<Seq<ExportEntryView>> {
    match dec_binary_list(b) {
        Some(items) => if items.len() % 3 == 0 && (forall|e: int|
            0 <= e < items.len() / 3 ==> #[trigger] entry_of_items(items, e) is Some) {
            Some(Seq::new(items.len() / 3, |e: int| entry_of_items(items, e).unwrap()))
        } else {
            None
        },
        None => None,
    }
}

/// Reads one run of tag bytes back into kinds.
fn kinds_from_bytes(b: &Vec<u8>) -> (r: Option<Vec<ValKind>>)
    ensures
        match r {
            Some(ks) => kinds_of_bytes(b@) == Some(ks@),
            None => kinds_of_bytes(b@) is None,
        },
{
    let mut ks: Vec<ValKind> = Vec::new();
    let mut i: usize = 0;
    while i < b.len()
        invariant
            i <= b@.len(),
            ks@.len() == i,
            forall|j: int|
                0 <= j < i ==> kind_of_byte(#[trigger] b@[j]) == Some(ks@[j]),
        decreases b@.len() - i,
    {
        let k = match b[i] {
            0u8 => ValKind::I32,
            1u8 => ValKind::I64,
            2u8 => ValKind::F32,
            3u8 => ValKind::F64,
            4u8 => ValKind::V128,
            5u8 => ValKind::ExternRef,
            6u8 => ValKind::FuncRef,
            _ => {
                proof {
                    assert(kind_of_byte(b@[i as int]) is None);
                }
                return None;
            },
        };
        ks.push(k);
        i = i + 1;
    }
    proof {
        assert(ks@ =~= Seq::new(b@.len(), |i: int| kind_of_byte(b@[i]).unwrap()));
    }
    Some(ks)
}

/// Decodes a whole buffer as an expected interface.
pub fn decode_interface(b: &Vec<u8>) -> (r: Option<Vec<ExportEntry>>)
    ensures
        match r {
            Some(es) => dec_interface(b@) == Some(es.deep_view()),
            None => dec_interface(b@) is None,
        },
{
    let items = match decode_binary_list(b) {
        Some(vs) => vs,
        None => {
            return None;
        },
    };
    let ghost dv = items.deep_view();
    let item_count = items.len();
    if item_count % 3 != 0 {
        return None;
    }
    let n = item_count / 3;
    let mut out: Vec<ExportEntry> = Vec::new();
    let mut e: usize = 0;
    while e < n
        invariant
            e <= n,
            item_count == items@.len(),
            n == item_count / 3,
            item_count % 3 == 0,
            dv == items.deep_view(),
            dv.len() == items@.len(),
            dec_binary_list(b@) == Some(dv),
            out@.len() == e,
            forall|j: int| 0 <= j < e ==> #[trigger] entry_of_items(dv, j) is Some,
            forall|j: int|
                0 <= j < e ==> #[trigger] out.deep_view()[j] == entry_of_items(dv, j).unwrap(),
        decreases n - e,
    {
        proof {
            assert(3 * (e as int) + 2 < item_count as int);
            assert(dv[3 * e] == items@[3 * e]@);
            assert(dv[3 * e + 1] == items@[3 * e + 1]@);
            assert(dv[3 * e + 2] == items@[3 * e + 2]@);
        }
        let name = match string_from_utf8(&items[3 * e]) {
            Some(s) => s,
            None => {
                proof {
                    assert(entry_of_items(dv, e as int) is None);
                }
                return None;
            },
        };
        let params = match kinds_from_bytes(&items[3 * e + 1]) {
            Some(ks) => ks,
            None => {
                proof {
                    assert(entry_of_items(dv, e as int) is None);
                }
                return None;
            },
        };
        let results = match kinds_from_bytes(&items[3 * e + 2]) {
            Some(ks) => ks,
            None => {
                proof {
                    assert(entry_of_items(dv, e as int) is None);
                }
                return None;
            },
        };
        let ghost out0 = out.deep_view();
        out.push(ExportEntry { name, sig: FuncSig { params, results } });
        proof {
            assert(entry_of_items(dv, e as int) is Some);
            assert(out.deep_view()[e as int] =~~= entry_of_items(dv, e as int).unwrap());
            assert forall|j: int| 0 <= j < e + 1 implies #[trigger] entry_of_items(dv, j)
                is Some by {
                if j == e {
                    assert(entry_of_items(dv, e as int) is Some);
                }
            }
            assert forall|j: int|
                0 <= j < e + 1 implies #[trigger] out.deep_view()[j] == entry_of_items(
                dv,
                j,
            ).unwrap() by {
                if j < e {
                    assert(out.deep_view()[j] == out0[j]);
                } else {
                    assert(out.deep_view()[e as int] == entry_of_items(dv, e as int).unwrap());
                }
            }
        }
        e = e + 1;
    }
    proof {
        assert forall|j: int| 0 <= j < dv.len() / 3 implies #[trigger] entry_of_items(dv, j)
            is Some by {
            assert(out.deep_view()[j] == entry_of_items(dv, j).unwrap());
        }
        assert(out.deep_view() =~~= Seq::new(
            dv.len() / 3,
            |j: int| entry_of_items(dv, j).unwrap(),
        ));
    }
    Some(out)
}

/// The flattened envelope items of an expected interface: name bytes,
/// parameter tags and result tags for each entry, in threes.
pub open spec fn interface_items(es: Seq<ExportEntryView>) -> Seq<Seq<u8>> {
    Seq::new(
        3 * es.len(),
        |i: int|
            if i % 3 == 0 {
                vstd::utf8::encode_utf8(es[i / 3].name)
            } else if i % 3 == 1 {
                bytes_of_kinds(es[i / 3].sig.params)
            } else {
                bytes_of_kinds(es[i / 3].sig.results)
            },
    )
}

/// Writes the tag bytes of a kind list.
fn kinds_to_bytes(ks: &Vec<ValKind>) -> (r: Vec<u8>)
    ensures
        r@ == bytes_of_kinds(ks@),
{
    let mut r: Vec<u8> = Vec::new();
    let mut i: usize = 0;
    while i < ks.len()
        invariant
            i <= ks@.len(),
            r@.len() == i,
            forall|j: int| 0 <= j < i ==> r@[j] == byte_of_kind(ks@[j]),
        decreases ks@.len() - i,
    {
        let b: u8 = match ks[i] {
            ValKind::I32 => 0u8,
            ValKind::I64 => 1u8,
            ValKind::F32 => 2u8,
            ValKind::F64 => 3u8,
            ValKind::V128 => 4u8,
            ValKind::ExternRef => 5u8,
            ValKind::FuncRef => 6u8,
        };
        r.push(b);
        i = i + 1;
    }
    proof {
        assert(r@ =~= bytes_of_kinds(ks@));
    }
    r
}

/// Serializes an expected interface; `None` when it does not fit the format.
pub fn encode_interface(es: &Vec<ExportEntry>) -> (r: Option<Vec<u8>>)
    ensures
        match r {
            Some(out) => out@ == crate::envelope::enc_binary_list(
                interface_items(es.deep_view()),
            ),
            None => !crate::envelope::binary_list_fits(interface_items(es.deep_view())),
        },
{
    let ghost dv = es.deep_view();
    let mut items: Vec<Vec<u8>> = Vec::new();
    let mut i: usize = 0;
    while i < es.len()
        invariant
            i <= es@.len(),
            dv == es.deep_view(),
            dv.len() == es@.len(),
            items.deep_view() =~= interface_items(dv).subrange(0, 3 * i),
        decreases es@.len() - i,
    {
        proof {
            assert(dv[i as int] == es@[i as int]@);
        }
        let ghost items0 = items.deep_view();
        items.push(es[i].name.as_str().as_bytes_vec());
        items.push(kinds_to_bytes(&es[i].sig.params));
        items.push(kinds_to_bytes(&es[i].sig.results));
        proof {
            assert(items.deep_view() =~~= items0.push(
                vstd::utf8::encode_utf8(dv[i as int].name),
            ).push(bytes_of_kinds(dv[i as int].sig.params)).push(
                bytes_of_kinds(dv[i as int].sig.results),
            ));
            assert(items.deep_view() =~= interface_items(dv).subrange(0, 3 * (i + 1)));
        }
        i = i + 1;
    }
    proof {
        assert(interface_items(dv).subrange(0, interface_items(dv).len() as int)
            =~= interface_items(dv));
    }
    crate::envelope::encode_binary_list(&items)
}

/// The inputs of a validation request are acceptable: the checksum has the
/// exact hash length and the expected-interface buffer decodes.
pub open spec fn validate_request_ok(
    checksum: Option<&Vec<u8>>,
    expected_interface: Option<&Vec<u8>>,
) -> bool {
    &&& checksum matches Some(b) && b@.len() == CHECKSUM_LENGTH
    &&& expected_interface matches Some(xb) && dec_interface(xb@) is Some
}

/// Validates a serialized expected interface against a module's exports: the
/// checksum must have the exact hash length, the interface buffer must
/// decode, and the verdict is then the comparison's.  The validator is a
/// function of its inputs alone: no instance is created, no gas is charged,
/// and nothing is mutated.
pub fn do_validate_interface(
    checksum: Option<&Vec<u8>>,
    expected_interface: Option<&Vec<u8>>,
    exports: &Vec<ExportEntry>,
) -> (r: Result<Option<String>, LinkError>)
    ensures
        r is Ok <==> validate_request_ok(checksum, expected_interface),
        checksum is None ==> is_unset(r, "checksum"@),
        checksum matches Some(b) && b@.len() != CHECKSUM_LENGTH ==> (r matches Err(e)
            && e is InvalidChecksum),
        checksum matches Some(b) && b@.len() == CHECKSUM_LENGTH ==> {
            &&& expected_interface is None ==> is_unset(r, "expected_interface"@)
            &&& (expected_interface matches Some(xb) && dec_interface(xb@) is None
                ==> is_serialization(r, "expected_interface"@))
            &&& (expected_interface matches Some(xb) ==> (dec_interface(xb@) matches Some(
                expected,
            ) ==> (r matches Ok(v) && (match v {
                Some(msg) => spec_validate(expected, exports.deep_view()) == Some(msg@),
                None => spec_validate(expected, exports.deep_view()) is None,
            }))))
        },
{
    let checksum_buf = match checksum {
        Some(b) => b,
        None => {
            return Err(LinkError::UnsetArgument { field: String::from_str("checksum") });
        },
    };
    let _checksum = match Checksum::from_bytes(checksum_buf) {
        Ok(c) => c,
        Err(e) => {
            return Err(e);
        },
    };
    let expected_buf = match expected_interface {
        Some(b) => b,
        None => {
            return Err(
                LinkError::UnsetArgument { field: String::from_str("expected_interface") },
            );
        },
    };
    let expected = match decode_interface(expected_buf) {
        Some(es) => es,
        None => {
            let cause = if decode_binary_list(expected_buf).is_none() {
                String::from_str("malformed envelope")
            } else {
                String::from_str("an interface entry is invalid")
            };
            return Err(
                LinkError::SerializationError { field: String::from_str("expected_interface"), cause },
            );
        },
    };
    Ok(validate_interface(&expected, exports))
}

/// Validation is a pure function of the expected interface and the exports:
/// two runs on the same inputs yield the same verdict, and nothing is mutated
/// in between.
pub proof fn lemma_validate_idempotent(
    expected: Seq<ExportEntryView>,
    exports: Seq<ExportEntryView>,
    r1: Option<Seq<char>>,
    r2: Option<Seq<char>>,
)
    requires
        r1 == spec_validate(expected, exports),
        r2 == spec_validate(expected, exports),
    ensures
        r1 == r2,
{
}

} // verus!
