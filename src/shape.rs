//! Shapes of the values at the guest boundary, and the lookup of the one
//! exported operation against the agreed interface.
use vstd::prelude::*;
use vstd::string::StringExecFns;
use crate::errors::CallError;

verus! {

/// The kind of a value in a flat schema.
#[derive(Clone, Copy, Debug, PartialEq, Eq, Structural)]
pub enum Kind {
    Bool,
    Integer,
    Char,
    Text,
    Record,
    Other,
}

/// One named field of a record.
#[derive(Debug)]
pub struct FieldShape {
    pub name: String,
    pub kind: Kind,
}

/// A value's shape: its kind and, for a record, its fields in declaration order.
#[derive(Debug)]
pub struct ValueShape {
    pub kind: Kind,
    pub fields: Vec<FieldShape>,
}

/// The declared shape of an operation: its parameters and its results.
#[derive(Debug)]
pub struct FuncShape {
    pub params: Vec<ValueShape>,
    pub results: Vec<ValueShape>,
}

/// An operation that a guest exports, under the interface that holds it.
#[derive(Debug)]
pub struct ExportDecl {
    pub interface: String,
    pub func: String,
    pub shape: FuncShape,
}

pub type FieldView = (Seq<char>, Kind);

pub type ValueView = (Kind, Seq<FieldView>);

pub type FuncView = (Seq<ValueView>, Seq<ValueView>);

pub type ExportView = (Seq<char>, Seq<char>, FuncView);

impl View for FieldShape {
    type V = FieldView;

    open spec fn view(&self) -> FieldView {
        (self.name@, self.kind)
    }
}

impl View for ValueShape {
    type V = ValueView;

    open spec fn view(&self) -> ValueView {
        (self.kind, self.fields@.map_values(|f: FieldShape| f@))
    }
}

impl View for FuncShape {
    type V = FuncView;

    open spec fn view(&self) -> FuncView {
        (self.params@.map_values(|v: ValueShape| v@), self.results@.map_values(|v: ValueShape| v@))
    }
}

impl View for ExportDecl {
    type V = ExportView;

    open spec fn view(&self) -> ExportView {
        (self.interface@, self.func@, self.shape@)
    }
}

/// The agreed request and response record: one text field named `uri`.
pub open spec fn agreed_record() -> ValueView {
    (Kind::Record, seq![("uri"@, Kind::Text)])
}

/// The agreed operation: one agreed record in, one agreed record out.
pub open spec fn agreed_signature() -> FuncView {
    (seq![agreed_record()], seq![agreed_record()])
}

pub open spec fn names_match(e: ExportView, interface: Seq<char>, func: Seq<char>) -> bool {
    e.0 == interface && e.1 == func
}

/// Whether `k` is the first export with the given names.
pub open spec fn is_first_match(s: Seq<ExportView>, interface: Seq<char>, func: Seq<char>, k: int) -> bool {
    &&& 0 <= k < s.len()
    &&& names_match(s[k], interface, func)
    &&& forall|j: int| 0 <= j < k ==> !names_match(#[trigger] s[j], interface, func)
}

fn same_text(a: &String, b: &String) -> (r: bool)
    ensures
        r == (a@ == b@),
{
    *a == *b
}

/// Whether a value has the agreed record shape.
pub fn is_agreed_record(v: &ValueShape) -> (r: bool)
    ensures
        r == (v@ == agreed_record()),
{
    assert(v@.1.len() == v.fields@.len());
    assert(agreed_record().1.len() == 1);
    if v.kind != Kind::Record || v.fields.len() != 1 {
        return false;
    }
    let f = &v.fields[0];
    let uri = String::from_str("uri");
    let ok = f.kind == Kind::Text && same_text(&f.name, &uri);
    if ok {
        assert(v@.1 =~= seq![("uri"@, Kind::Text)]);
    } else {
        assert(v@.1[0] == f@);
    }
    ok
}

/// Whether an operation's declared shape is the agreed one.
pub fn signature_matches(s: &FuncShape) -> (r: bool)
    ensures
        r == (s@ == agreed_signature()),
{
    assert(s@.0.len() == s.params@.len() && s@.1.len() == s.results@.len());
    assert(agreed_signature().0.len() == 1 && agreed_signature().1.len() == 1);
    if s.params.len() != 1 || s.results.len() != 1 {
        return false;
    }
    let p = is_agreed_record(&s.params[0]);
    let q = is_agreed_record(&s.results[0]);
    if p && q {
        assert(s@.0 =~= seq![agreed_record()]);
        assert(s@.1 =~= seq![agreed_record()]);
    } else {
        assert(s@.0[0] == s.params@[0]@);
        assert(s@.1[0] == s.results@[0]@);
    }
    p && q
}

/// At most one export is the first with given names.
pub proof fn lemma_first_match_unique(s: Seq<ExportView>, interface: Seq<char>, func: Seq<char>, k: int, m: int)
    requires
        is_first_match(s, interface, func, k),
        is_first_match(s, interface, func, m),
    ensures
        k == m,
{
    if k < m {
        assert(!names_match(s[k], interface, func));
    } else if m < k {
        assert(!names_match(s[m], interface, func));
    }
}

/// The outcome of looking up an operation: the first export with the
/// operation's names decides, by whether its shape is the agreed one.
pub open spec fn spec_resolve(s: Seq<ExportView>, interface: Seq<char>, func: Seq<char>) -> Result<(), CallError> {
    if exists|k: int| is_first_match(s, interface, func, k) {
        let k = choose|k: int| is_first_match(s, interface, func, k);
        if s[k].2 == agreed_signature() {
            Ok(())
        } else {
            Err(CallError::SignatureMismatch)
        }
    } else {
        Err(CallError::ExportNotFound)
    }
}

/// Looks up the operation `func` of `interface` among a guest's exports and
/// checks its declared shape against the agreed one.
pub fn resolve_export(exports: &Vec<ExportDecl>, interface: &String, func: &String) -> (r: Result<(), CallError>)
    ensures
        r == spec_resolve(exports@.map_values(|e: ExportDecl| e@), interface@, func@),
        (r matches Err(CallError::ExportNotFound))
            <==> forall|k: int| 0 <= k < exports@.len() ==> !names_match(#[trigger] exports@[k]@, interface@, func@),
        forall|k: int| is_first_match(exports@.map_values(|e: ExportDecl| e@), interface@, func@, k) ==> {
            &&& (r is Ok <==> exports@[k]@.2 == agreed_signature())
            &&& (r is Err ==> r matches Err(CallError::SignatureMismatch))
        },
{
    let ghost s = exports@.map_values(|e: ExportDecl| e@);
    let mut i: usize = 0;
    while i < exports.len()
        invariant
            0 <= i <= exports@.len(),
            s == exports@.map_values(|e: ExportDecl| e@),
            forall|j: int| 0 <= j < i ==> !names_match(#[trigger] s[j], interface@, func@),
        decreases exports@.len() - i,
    {
        let e = &exports[i];
        if same_text(&e.interface, interface) && same_text(&e.func, func) {
            assert(is_first_match(s, interface@, func@, i as int));
            assert forall|k: int| is_first_match(s, interface@, func@, k) implies k == i by {
                if k < i {
                    assert(!names_match(s[k], interface@, func@));
                } else if k > i {
                    assert(!names_match(s[i as int], interface@, func@));
                }
            }
            let ghost k = choose|k: int| is_first_match(s, interface@, func@, k);
            assert(s[i as int] == e@);
            if signature_matches(&e.shape) {
                return Ok(());
            } else {
                return Err(CallError::SignatureMismatch);
            }
        }
        assert(!names_match(s[i as int], interface@, func@));
        i = i + 1;
    }
    assert forall|k: int| 0 <= k < exports@.len() implies !names_match(#[trigger] exports@[k]@, interface@, func@) by {
        assert(s[k] == exports@[k]@);
    }
    assert(!exists|k: int| is_first_match(s, interface@, func@, k));
    Err(CallError::ExportNotFound)
}

} // verus!
