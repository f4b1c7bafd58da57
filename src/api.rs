//! Describing an API structure as data and loading it from a library.
//!
//! An API is an ordered list of field declarations. Each declaration names a
//! field, the symbol it is read from (the field's own name unless another is
//! given), the shape of the value, and whether a null value is acceptable.
//! Loading takes what the loader answered for each field's symbol and either
//! yields a value for every field or fails with the first field's error.
use vstd::prelude::*;

use crate::err::Error;
use crate::raw::{classify_symbol, spec_classify};

verus! {

/// The declared shape of one field.
#[derive(Clone, Copy, Debug, PartialEq, Eq, Structural)]
pub enum FieldShape {
    /// A function pointer; a C-variadic one gets no forwarding accessor.
    Function { variadic: bool },
    /// A reference to data of the library, shared or exclusive.
    Reference { mutable: bool },
    /// A raw pointer; it gets no accessor.
    Pointer,
    /// A function pointer that the library may lack.
    OptionalFunction { variadic: bool },
    /// A reference that the library may lack.
    OptionalReference { mutable: bool },
}

/// One field of an API structure.
#[derive(Clone, Debug, PartialEq, Eq)]
pub struct FieldDecl {
    /// The field's name.
    pub name: Vec<u8>,
    /// The exported symbol to read instead of the field's name, if any.
    pub symbol: Option<Vec<u8>>,
    /// The shape of the value.
    pub shape: FieldShape,
    /// Whether a null value is acceptable; a reference may not say so, and
    /// an optional field is absent when null whatever it says.
    pub allow_null: bool,
}

/// How the outcome of one field's lookup is judged.
#[derive(Clone, Copy, Debug, PartialEq, Eq, Structural)]
pub enum LoadRule {
    /// The symbol must be found and non-null.
    Required,
    /// The symbol must be found; a null value is kept as null.
    NullAllowed,
    /// A missing or null symbol leaves the field absent.
    Optional,
}

/// The value of one field after loading.
#[derive(Clone, Copy, Debug, PartialEq, Eq, Structural)]
pub enum Resolved {
    /// The symbol's address.
    Address(usize),
    /// A null pointer, kept because the field allows it.
    Null,
    /// An optional field whose symbol was missing or null.
    Absent,
}

/// Whether a declaration is acceptable: a non-empty name, and no null value
/// allowed on a reference.
pub open spec fn field_valid(f: FieldDecl) -> bool {
    &&& f.name@.len() > 0
    &&& f.allow_null ==> !(f.shape is Reference)
}

/// The rule by which a field is loaded.
pub open spec fn field_rule(f: FieldDecl) -> LoadRule {
    match f.shape {
        FieldShape::OptionalFunction { .. } => LoadRule::Optional,
        FieldShape::OptionalReference { .. } => LoadRule::Optional,
        FieldShape::Reference { .. } => LoadRule::Required,
        _ => if f.allow_null {
            LoadRule::NullAllowed
        } else {
            LoadRule::Required
        },
    }
}

/// The name of the exported symbol that a field is read from.
pub open spec fn field_symbol(f: FieldDecl) -> Seq<u8> {
    match f.symbol {
        Some(s) => s@,
        None => f.name@,
    }
}

/// What one field becomes, given its rule and what the loader answered for
/// its symbol.
pub open spec fn field_outcome(rule: LoadRule, raw: Result<usize, Error>) -> Result<
    Resolved,
    Error,
> {
    match spec_classify(raw) {
        Ok(a) => Ok(Resolved::Address(a)),
        Err(Error::NullSymbol) => match rule {
            LoadRule::Required => Err(Error::NullSymbol),
            LoadRule::NullAllowed => Ok(Resolved::Null),
            LoadRule::Optional => Ok(Resolved::Absent),
        },
        Err(Error::SymbolNotFound(m)) => match rule {
            LoadRule::Optional => Ok(Resolved::Absent),
            _ => Err(Error::SymbolNotFound(m)),
        },
        Err(e) => Err(e),
    }
}

/// Loading the first `n` fields: their values in order, or the error of the
/// first field that fails.
pub open spec fn load_prefix(
    fields: Seq<FieldDecl>,
    raws: Seq<Result<usize, Error>>,
    n: nat,
) -> Result<Seq<Resolved>, Error>
    decreases n,
{
    if n == 0 {
        Ok(Seq::empty())
    } else {
        match load_prefix(fields, raws, (n - 1) as nat) {
            Err(e) => Err(e),
            Ok(done) => match field_outcome(field_rule(fields[n - 1]), raws[n - 1]) {
                Ok(x) => Ok(done.push(x)),
                Err(e) => Err(e),
            },
        }
    }
}

/// Loading every field.
pub open spec fn load_outcome(fields: Seq<FieldDecl>, raws: Seq<Result<usize, Error>>) -> Result<
    Seq<Resolved>,
    Error,
> {
    load_prefix(fields, raws, fields.len())
}

/// Once a prefix has failed, every longer prefix fails with the same error.
proof fn lemma_failure_persists(
    fields: Seq<FieldDecl>,
    raws: Seq<Result<usize, Error>>,
    k: nat,
    n: nat,
)
    requires
        k <= n,
        load_prefix(fields, raws, k) is Err,
    ensures
        load_prefix(fields, raws, n) == load_prefix(fields, raws, k),
    decreases n - k,
{
    if k < n {
        lemma_failure_persists(fields, raws, k, (n - 1) as nat);
    }
}

/// A prefix loads exactly when each of its fields does, and then holds each
/// field's value at the field's place.
proof fn lemma_prefix_success(fields: Seq<FieldDecl>, raws: Seq<Result<usize, Error>>, n: nat)
    ensures
        load_prefix(fields, raws, n) is Ok <==> (forall|i: int|
            0 <= i < n ==> (#[trigger] field_outcome(field_rule(fields[i]), raws[i])) is Ok),
        load_prefix(fields, raws, n) matches Ok(vals) ==> vals.len() == n && forall|i: int|
            0 <= i < n ==> field_outcome(field_rule(fields[i]), raws[i]) == Ok::<Resolved, Error>(
                #[trigger] vals[i],
            ),
    decreases n,
{
    if n > 0 {
        lemma_prefix_success(fields, raws, (n - 1) as nat);
    }
}

/// The error of a failed load is that of the first field that fails: every
/// field before it loads.
proof fn lemma_prefix_failure(fields: Seq<FieldDecl>, raws: Seq<Result<usize, Error>>, n: nat)
    ensures
        load_prefix(fields, raws, n) matches Err(e) ==> exists|k: int|
            0 <= k < n && field_outcome(field_rule(fields[k]), raws[k]) == Err::<Resolved, Error>(
                e,
            ) && forall|i: int|
                0 <= i < k ==> (#[trigger] field_outcome(field_rule(fields[i]), raws[i])) is Ok,
    decreases n,
{
    if n > 0 {
        lemma_prefix_failure(fields, raws, (n - 1) as nat);
        lemma_prefix_success(fields, raws, (n - 1) as nat);
    }
}

/// The kind of accessor that an API exposes for a field.
#[derive(Clone, Copy, Debug, PartialEq, Eq, Structural)]
pub enum AccessorKind {
    /// Calls the function with the caller's arguments.
    Forward,
    /// Gives the function pointer itself, which may be null.
    PointerValue,
    /// Gives shared access to the referenced data.
    Shared,
    /// Gives exclusive access to the referenced data.
    Exclusive,
    /// Calls the function if it is present: some result, or none.
    OptionalForward,
    /// Tells whether an optional function is present.
    Presence,
    /// Gives shared access to the data if it is present.
    OptionalShared,
    /// Gives exclusive access to the data if it is present.
    OptionalExclusive,
}

/// One accessor: its name and its kind.
#[derive(Clone, Debug, PartialEq, Eq)]
pub struct Accessor {
    /// The accessor's name.
    pub name: Vec<u8>,
    /// What it does.
    pub kind: AccessorKind,
}

/// The suffix of the exclusive accessor of a reference field: `_mut`.
pub open spec fn exclusive_suffix() -> Seq<u8> {
    seq![95u8, 109u8, 117u8, 116u8]
}

/// The prefix of the presence query of an optional function: `has_`.
pub open spec fn presence_prefix() -> Seq<u8> {
    seq![104u8, 97u8, 115u8, 95u8]
}

/// The accessors that an API exposes for a field, by its shape: a forwarding
/// call for a function, or the pointer value where it may be null; a shared
/// accessor for a reference, and for an exclusive one also `<name>_mut`; none
/// for a raw pointer; for an optional function a forwarding call that may
/// find nothing and the presence query `has_<name>`; for an optional
/// reference one accessor of the reference's kind. A variadic function gets
/// none.
pub open spec fn field_accessors(f: FieldDecl) -> Seq<(Seq<u8>, AccessorKind)> {
    let n = f.name@;
    match f.shape {
        FieldShape::Function { variadic } => if variadic {
            seq![]
        } else if f.allow_null {
            seq![(n, AccessorKind::PointerValue)]
        } else {
            seq![(n, AccessorKind::Forward)]
        },
        FieldShape::Reference { mutable } => if mutable {
            seq![(n, AccessorKind::Shared), (n + exclusive_suffix(), AccessorKind::Exclusive)]
        } else {
            seq![(n, AccessorKind::Shared)]
        },
        FieldShape::Pointer => seq![],
        FieldShape::OptionalFunction { variadic } => if variadic {
            seq![]
        } else {
            seq![(n, AccessorKind::OptionalForward), (presence_prefix() + n, AccessorKind::Presence)]
        },
        FieldShape::OptionalReference { mutable } => if mutable {
            seq![(n, AccessorKind::OptionalExclusive)]
        } else {
            seq![(n, AccessorKind::OptionalShared)]
        },
    }
}

/// Whether a list of accessors is, name for name and kind for kind, the
/// given sequence.
pub open spec fn accessors_are(r: Seq<Accessor>, s: Seq<(Seq<u8>, AccessorKind)>) -> bool {
    &&& r.len() == s.len()
    &&& forall|i: int| 0 <= i < s.len() ==> (#[trigger] r[i]).name@ == s[i].0 && r[i].kind == s[i].1
}

impl FieldDecl {
    /// The accessors that an API exposes for this field.
    pub fn accessors(&self) -> (r: Vec<Accessor>)
        ensures
            accessors_are(r@, field_accessors(*self)),
    {
        let mut out: Vec<Accessor> = Vec::new();
        match self.shape {
            FieldShape::Function { variadic } => {
                if !variadic {
                    let kind = if self.allow_null {
                        AccessorKind::PointerValue
                    } else {
                        AccessorKind::Forward
                    };
                    out.push(Accessor { name: self.name.clone(), kind });
                }
            },
            FieldShape::Reference { mutable } => {
                out.push(Accessor { name: self.name.clone(), kind: AccessorKind::Shared });
                if mutable {
                    let mut name = self.name.clone();
                    // "_mut"
                    name.push(95u8);
                    name.push(109u8);
                    name.push(117u8);
                    name.push(116u8);
                    assert(name@ =~= self.name@ + exclusive_suffix());
                    out.push(Accessor { name, kind: AccessorKind::Exclusive });
                }
            },
            FieldShape::Pointer => {},
            FieldShape::OptionalFunction { variadic } => {
                if !variadic {
                    out.push(
                        Accessor { name: self.name.clone(), kind: AccessorKind::OptionalForward },
                    );
                    let mut name: Vec<u8> = Vec::new();
                    // "has_"
                    name.push(104u8);
                    name.push(97u8);
                    name.push(115u8);
                    name.push(95u8);
                    let mut i: usize = 0;
                    while i < self.name.len()
                        invariant
                            i <= self.name@.len(),
                            name@ == presence_prefix() + self.name@.subrange(0, i as int),
                        decreases self.name@.len() - i,
                    {
                        name.push(self.name[i]);
                        i = i + 1;
                        assert(name@ =~= presence_prefix() + self.name@.subrange(0, i as int));
                    }
                    assert(self.name@.subrange(0, self.name@.len() as int) =~= self.name@);
                    out.push(Accessor { name, kind: AccessorKind::Presence });
                }
            },
            FieldShape::OptionalReference { mutable } => {
                let kind = if mutable {
                    AccessorKind::OptionalExclusive
                } else {
                    AccessorKind::OptionalShared
                };
                out.push(Accessor { name: self.name.clone(), kind });
            },
        }
        out
    }

    /// The rule by which this field is loaded; `None` where the declaration
    /// is not acceptable.
    pub fn load_rule(&self) -> (r: Option<LoadRule>)
        ensures
            r is Some <==> field_valid(*self),
            r matches Some(rule) ==> rule == field_rule(*self),
    {
        if self.name.len() == 0 {
            return None;
        }
        let is_reference = match self.shape {
            FieldShape::Reference { .. } => true,
            _ => false,
        };
        if self.allow_null && is_reference {
            None
        } else {
            Some(rule_of(self))
        }
    }

    /// The name of the exported symbol this field is read from: the one
    /// given in the declaration, or else the field's name.
    pub fn symbol_name(&self) -> (r: Vec<u8>)
        ensures
            r@ == field_symbol(*self),
    {
        match &self.symbol {
            Some(s) => s.clone(),
            None => self.name.clone(),
        }
    }
}

/// The rule by which a field is loaded, whether or not its declaration is
/// acceptable.
fn rule_of(field: &FieldDecl) -> (r: LoadRule)
    ensures
        r == field_rule(*field),
{
    match field.shape {
        FieldShape::OptionalFunction { .. } => LoadRule::Optional,
        FieldShape::OptionalReference { .. } => LoadRule::Optional,
        FieldShape::Reference { .. } => LoadRule::Required,
        _ => if field.allow_null {
            LoadRule::NullAllowed
        } else {
            LoadRule::Required
        },
    }
}

/// Judges the loader's answer for one field by the field's rule.
pub fn resolve_field(rule: LoadRule, raw: &Result<usize, Error>) -> (r: Result<Resolved, Error>)
    ensures
        r == field_outcome(rule, *raw),
{
    let copied = match raw {
        Ok(a) => Ok(*a),
        Err(e) => Err(e.clone()),
    };
    match classify_symbol(copied) {
        Ok(a) => Ok(Resolved::Address(a)),
        Err(Error::NullSymbol) => match rule {
            LoadRule::Required => Err(Error::NullSymbol),
            LoadRule::NullAllowed => Ok(Resolved::Null),
            LoadRule::Optional => Ok(Resolved::Absent),
        },
        Err(Error::SymbolNotFound(m)) => match rule {
            LoadRule::Optional => Ok(Resolved::Absent),
            _ => Err(Error::SymbolNotFound(m)),
        },
        Err(e) => Err(e),
    }
}

/// The values of an API's fields, in declaration order.
#[derive(Debug, PartialEq, Eq)]
pub struct LoadedApi {
    slots: Vec<Resolved>,
}

impl View for LoadedApi {
    type V = Seq<Resolved>;

    closed spec fn view(&self) -> Seq<Resolved> {
        self.slots@
    }
}

impl LoadedApi {
    /// The number of fields.
    pub fn len(&self) -> (r: usize)
        ensures
            r == self@.len(),
    {
        self.slots.len()
    }

    /// The value of the field at `index`.
    pub fn slot(&self, index: usize) -> (r: Resolved)
        requires
            index < self@.len(),
        ensures
            r == self@[index as int],
    {
        self.slots[index]
    }

    /// Whether the field at `index` holds an address: what the presence
    /// query of an optional field answers.
    pub fn is_present(&self, index: usize) -> (r: bool)
        requires
            index < self@.len(),
        ensures
            r == self@[index as int] is Address,
    {
        match self.slots[index] {
            Resolved::Address(_) => true,
            _ => false,
        }
    }

    /// The address held by the field at `index`; `None` where the field is
    /// null or absent.
    pub fn address(&self, index: usize) -> (r: Option<usize>)
        requires
            index < self@.len(),
        ensures
            r is Some <==> self@[index as int] is Address,
            r matches Some(a) ==> self@[index as int] == Resolved::Address(a),
    {
        match self.slots[index] {
            Resolved::Address(a) => Some(a),
            _ => None,
        }
    }
}

/// An API structure described as data: its field declarations, in order.
/// Every declaration in it is acceptable.
#[derive(Clone, Debug, PartialEq, Eq)]
pub struct ApiDescriptor {
    fields: Vec<FieldDecl>,
}

/// Whether a list of declarations describes an API: every declaration is
/// acceptable, and no two fields share a name.
pub open spec fn fields_valid(fields: Seq<FieldDecl>) -> bool {
    &&& forall|i: int| 0 <= i < fields.len() ==> field_valid(#[trigger] fields[i])
    &&& forall|i: int, j: int|
        0 <= i < j < fields.len() ==> (#[trigger] fields[i]).name@ != (#[trigger] fields[j]).name@
}

/// Whether two byte strings are equal.
fn same_bytes(a: &Vec<u8>, b: &Vec<u8>) -> (r: bool)
    ensures
        r == (a@ == b@),
{
    if a.len() != b.len() {
        return false;
    }
    let mut i: usize = 0;
    while i < a.len()
        invariant
            i <= a@.len(),
            a@.len() == b@.len(),
            forall|k: int| 0 <= k < i ==> a@[k] == b@[k],
        decreases a@.len() - i,
    {
        if a[i] != b[i] {
            return false;
        }
        i = i + 1;
    }
    assert(a@ =~= b@);
    true
}

impl View for ApiDescriptor {
    type V = Seq<FieldDecl>;

    closed spec fn view(&self) -> Seq<FieldDecl> {
        self.fields@
    }
}

impl ApiDescriptor {
    /// A descriptor of these fields; `None` if any declaration is not
    /// acceptable.
    pub fn new(fields: Vec<FieldDecl>) -> (r: Option<ApiDescriptor>)
        ensures
            r is Some <==> fields_valid(fields@),
            r matches Some(d) ==> d@ == fields@,
    {
        let mut i: usize = 0;
        while i < fields.len()
            invariant
                i <= fields@.len(),
                forall|k: int| 0 <= k < i ==> field_valid(#[trigger] fields@[k]),
                forall|k: int, l: int|
                    0 <= k < l < i ==> (#[trigger] fields@[k]).name@ != (#[trigger] fields@[l]).name@,
            decreases fields@.len() - i,
        {
            if fields[i].load_rule().is_none() {
                return None;
            }
            let mut j: usize = 0;
            while j < i
                invariant
                    i < fields@.len(),
                    j <= i,
                    forall|k: int| 0 <= k < j ==> (#[trigger] fields@[k]).name@ != fields@[i as int].name@,
                decreases i - j,
            {
                if same_bytes(&fields[j].name, &fields[i].name) {
                    return None;
                }
                j = j + 1;
            }
            i = i + 1;
        }
        Some(ApiDescriptor { fields })
    }

    /// The field declarations.
    pub fn fields(&self) -> (r: &Vec<FieldDecl>)
        ensures
            r@ == self@,
    {
        &self.fields
    }

    /// The symbol names that the loader must be asked for, one per field,
    /// in order.
    pub fn symbol_names(&self) -> (r: Vec<Vec<u8>>)
        ensures
            r@.len() == self@.len(),
            forall|i: int| 0 <= i < self@.len() ==> (#[trigger] r@[i])@ == field_symbol(self@[i]),
    {
        let mut out: Vec<Vec<u8>> = Vec::new();
        let mut i: usize = 0;
        while i < self.fields.len()
            invariant
                i <= self.fields@.len(),
                out@.len() == i,
                forall|j: int| 0 <= j < i ==> (#[trigger] out@[j])@ == field_symbol(self.fields@[j]),
            decreases self.fields@.len() - i,
        {
            out.push(self.fields[i].symbol_name());
            i = i + 1;
        }
        out
    }

    /// Loads every field from what the loader answered for its symbol (the
    /// answers in field order): all the values, or the error of the first
    /// field that fails.
    pub fn load(&self, lookups: &Vec<Result<usize, Error>>) -> (r: Result<LoadedApi, Error>)
        requires
            lookups@.len() == self@.len(),
        ensures
            r is Ok <==> load_outcome(self@, lookups@) is Ok,
            r matches Ok(api) ==> load_outcome(self@, lookups@) == Ok::<Seq<Resolved>, Error>(
                api@,
            ),
            r matches Err(e) ==> load_outcome(self@, lookups@) == Err::<Seq<Resolved>, Error>(e),
    {
        let mut slots: Vec<Resolved> = Vec::new();
        let mut i: usize = 0;
        while i < self.fields.len()
            invariant
                i <= self.fields@.len(),
                lookups@.len() == self.fields@.len(),
                load_prefix(self.fields@, lookups@, i as nat) == Ok::<Seq<Resolved>, Error>(slots@),
            decreases self.fields@.len() - i,
        {
            let rule = rule_of(&self.fields[i]);
            match resolve_field(rule, &lookups[i]) {
                Ok(x) => {
                    slots.push(x);
                },
                Err(e) => {
                    proof {
                        lemma_failure_persists(
                            self.fields@,
                            lookups@,
                            (i + 1) as nat,
                            self.fields@.len(),
                        );
                    }
                    return Err(e);
                },
            }
            i = i + 1;
        }
        Ok(LoadedApi { slots })
    }

    /// Loads the API where every field loads, and gives `None` where any
    /// does not: an API that the library may lack as a whole.
    pub fn load_optional(&self, lookups: &Vec<Result<usize, Error>>) -> (r: Option<LoadedApi>)
        requires
            lookups@.len() == self@.len(),
        ensures
            r is Some <==> load_outcome(self@, lookups@) is Ok,
            r matches Some(api) ==> load_outcome(self@, lookups@) == Ok::<Seq<Resolved>, Error>(
                api@,
            ),
    {
        match self.load(lookups) {
            Ok(api) => Some(api),
            Err(_) => None,
        }
    }
}

/// Loads several APIs from one library, each on its own: each is present
/// exactly when all of its fields load, whatever became of the others.
pub fn load_each(apis: &Vec<ApiDescriptor>, lookups: &Vec<Vec<Result<usize, Error>>>) -> (r: Vec<
    Option<LoadedApi>,
>)
    requires
        lookups@.len() == apis@.len(),
        forall|i: int| 0 <= i < apis@.len() ==> (#[trigger] lookups@[i])@.len() == apis@[i]@.len(),
    ensures
        r@.len() == apis@.len(),
        forall|i: int|
            0 <= i < apis@.len() ==> ((#[trigger] r@[i]) is Some <==> load_outcome(
                apis@[i]@,
                lookups@[i]@,
            ) is Ok),
        forall|i: int|
            0 <= i < apis@.len() ==> (#[trigger] r@[i] matches Some(a) ==> load_outcome(
                apis@[i]@,
                lookups@[i]@,
            ) == Ok::<Seq<Resolved>, Error>(a@)),
{
    let mut out: Vec<Option<LoadedApi>> = Vec::new();
    let mut i: usize = 0;
    while i < apis.len()
        invariant
            i <= apis@.len(),
            lookups@.len() == apis@.len(),
            forall|j: int| 0 <= j < apis@.len() ==> (#[trigger] lookups@[j])@.len() == apis@[j]@.len(),
            out@.len() == i,
            forall|j: int|
                0 <= j < i ==> ((#[trigger] out@[j]) is Some <==> load_outcome(
                    apis@[j]@,
                    lookups@[j]@,
                ) is Ok),
            forall|j: int|
                0 <= j < i ==> (#[trigger] out@[j] matches Some(a) ==> load_outcome(
                    apis@[j]@,
                    lookups@[j]@,
                ) == Ok::<Seq<Resolved>, Error>(a@)),
        decreases apis@.len() - i,
    {
        assert(lookups@[i as int]@.len() == apis@[i as int]@.len());
        out.push(apis[i].load_optional(&lookups[i]));
        i = i + 1;
    }
    out
}

} // verus!
