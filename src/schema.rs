use vstd::prelude::*;

verus! {

#[verifier::external_type_specification]
#[verifier::external_body]
pub struct ExType(syn::Type);

/// Relies on syn's `Clone for Type`, which copies the syntax tree variant by
/// variant: the copy is the same type.
pub assume_specification[ <syn::Type as Clone>::clone ](t: &syn::Type) -> (r: syn::Type)
    ensures
        r == *t,
;

/// The role that a module field is declared with.
#[derive(Clone, Copy, Debug, PartialEq, Eq, Structural)]
pub enum Role {
    Input,
    Output,
    Clocked,
    /// Accepted, reserved: nothing is generated for it.
    Memory,
    /// Accepted, reserved: nothing is generated for it.
    Submodule,
    /// No role tag: a private detail of the module.
    Untagged,
}

/// One generic argument of a path segment.
pub enum GenericArg {
    Type(syn::Type),
    /// A lifetime, a constant, a binding or a constraint.
    Other,
}

/// The arguments written after a path segment's identifier.
pub enum SegmentArgs {
    /// A bare identifier.
    Bare,
    AngleBracketed(Vec<GenericArg>),
    /// `Fn(A) -> B` style arguments.
    Parenthesized,
}

pub struct PathSegment {
    pub ident: String,
    pub args: SegmentArgs,
}

/// The declared type of a field, as far as the compiler reads it.
pub enum FieldType {
    /// A path type without a qualified self (`a::b::Signal<T>`), by segments.
    Path(Vec<PathSegment>),
    /// Any other type: a reference, a tuple, a qualified path, ...
    Other,
}

/// A declared module field: its name, the names of its attributes in order,
/// and its type.
pub struct FieldDecl {
    pub name: String,
    pub attrs: Vec<String>,
    pub ty: FieldType,
}

/// The data shape of a module declaration.
pub enum ModuleShape {
    /// A struct with named fields.
    Named(Vec<FieldDecl>),
    /// A tuple or unit struct.
    Unnamed,
    /// An enum or a union.
    NotAStruct,
}

/// Why an input or output field's type is not a usable wire type.
#[derive(Clone, Copy, Debug, PartialEq, Eq, Structural)]
pub enum FieldFault {
    /// The type is not a plain path.
    NotAPath,
    /// No segment of the path is `Signal`.
    NotASignal,
    /// `Signal<..>` whose first argument is not a type.
    InvalidTypeParameters,
    /// `Signal` without angle-bracketed arguments.
    MissingTypeParameters,
}

/// A schema error: nothing is generated for the module.
#[derive(Debug)]
pub enum SchemaError {
    NotAStruct,
    UnnamedFields,
    BadField { field: String, fault: FieldFault },
}

/// A generated wire accessor: method `method` forwards to field `field`,
/// whose wire holds values of type `inner_ty`.
pub struct SignalAccessor {
    pub field: String,
    pub method: String,
    pub inner_ty: syn::Type,
}

/// The surface generated for a module: one drive method per input, one
/// sample method per output, and the clocked fields that the edge forwards to,
/// each in declaration order.
pub struct ModulePlan {
    pub drives: Vec<SignalAccessor>,
    pub samples: Vec<SignalAccessor>,
    pub clocked: Vec<String>,
}

pub open spec fn tag_role(tag: Seq<char>) -> Role {
    if tag == "input"@ {
        Role::Input
    } else if tag == "output"@ {
        Role::Output
    } else if tag == "clocked"@ {
        Role::Clocked
    } else if tag == "memory"@ {
        Role::Memory
    } else if tag == "submodule"@ {
        Role::Submodule
    } else {
        Role::Untagged
    }
}

/// The role named by the first role tag among `attrs`; `Untagged` when none
/// of them is a role tag. Other attributes have no say.
pub open spec fn role_in(attrs: Seq<String>) -> Role
    decreases attrs.len(),
{
    if attrs.len() == 0 {
        Role::Untagged
    } else if tag_role(attrs[0]@) != Role::Untagged {
        tag_role(attrs[0]@)
    } else {
        role_in(attrs.drop_first())
    }
}

/// A field's role is given by the first of its attributes that is a role tag.
pub open spec fn role_of(f: FieldDecl) -> Role {
    role_in(f.attrs@)
}

pub open spec fn is_signal_segment(s: PathSegment) -> bool {
    s.ident@ == "Signal"@
}

/// The position of the last `Signal` segment of a path.
pub open spec fn last_signal(segs: Seq<PathSegment>) -> Option<int>
    decreases segs.len(),
{
    if segs.len() == 0 {
        None
    } else if is_signal_segment(segs.last()) {
        Some(segs.len() - 1)
    } else {
        last_signal(segs.drop_last())
    }
}

/// The value type of a `Signal<T>` field type, or why there is none.
pub open spec fn signal_inner(ty: FieldType) -> Result<syn::Type, FieldFault> {
    match ty {
        FieldType::Other => Err(FieldFault::NotAPath),
        FieldType::Path(segs) => match last_signal(segs@) {
            None => Err(FieldFault::NotASignal),
            Some(i) => match segs@[i].args {
                SegmentArgs::AngleBracketed(args) => if args@.len() > 0 && args@[0] is Type {
                    Ok(args@[0]->Type_0)
                } else {
                    Err(FieldFault::InvalidTypeParameters)
                },
                _ => Err(FieldFault::MissingTypeParameters),
            },
        },
    }
}

/// The role given by an attribute name.
pub fn role_of_tag(tag: &String) -> (r: Role)
    ensures
        r == tag_role(tag@),
{
    if *tag == String::from_str("input") {
        Role::Input
    } else if *tag == String::from_str("output") {
        Role::Output
    } else if *tag == String::from_str("clocked") {
        Role::Clocked
    } else if *tag == String::from_str("memory") {
        Role::Memory
    } else if *tag == String::from_str("submodule") {
        Role::Submodule
    } else {
        Role::Untagged
    }
}

/// The role of a field: that of its first attribute that is a role tag,
/// `Untagged` without one.
pub fn field_role(f: &FieldDecl) -> (r: Role)
    ensures
        r == role_of(*f),
{
    let attrs = &f.attrs;
    let mut i: usize = 0;
    assert(attrs@.subrange(0, attrs@.len() as int) =~= attrs@);
    while i < attrs.len()
        invariant
            i <= attrs@.len(),
            attrs@ == f.attrs@,
            role_in(attrs@) == role_in(attrs@.subrange(i as int, attrs@.len() as int)),
        decreases attrs@.len() - i,
    {
        let ghost rest = attrs@.subrange(i as int, attrs@.len() as int);
        assert(rest.drop_first() =~= attrs@.subrange(i + 1, attrs@.len() as int));
        assert(rest[0] == attrs@[i as int]);
        let role = role_of_tag(&attrs[i]);
        if role != Role::Untagged {
            return role;
        }
        i = i + 1;
    }
    assert(attrs@.subrange(i as int, attrs@.len() as int) =~= Seq::<String>::empty());
    Role::Untagged
}

/// The position of the last `Signal` segment of a path, if any.
pub fn find_last_signal(segs: &Vec<PathSegment>) -> (r: Option<usize>)
    ensures
        match r {
            Some(k) => last_signal(segs@) == Some(k as int) && k < segs@.len(),
            None => last_signal(segs@) is None,
        },
{
    let signal = String::from_str("Signal");
    let mut found: Option<usize> = None;
    let mut i: usize = 0;
    while i < segs.len()
        invariant
            i <= segs@.len(),
            signal@ == "Signal"@,
            match last_signal(segs@.take(i as int)) {
                Some(j) => found matches Some(k) && j == k as int && k < i,
                None => found is None,
            },
        decreases segs@.len() - i,
    {
        assert(segs@.take(i + 1).drop_last() =~= segs@.take(i as int));
        assert(segs@.take(i + 1).last() == segs@[i as int]);
        if segs[i].ident == signal {
            found = Some(i);
        }
        i = i + 1;
    }
    assert(segs@.take(i as int) =~= segs@);
    found
}

/// The value type `T` of a field declared as `Signal<T>`; the error names
/// the field.
pub fn extract_signal_type(name: &String, ty: &FieldType) -> (r: Result<syn::Type, SchemaError>)
    ensures
        match signal_inner(*ty) {
            Ok(t) => r == Ok::<syn::Type, SchemaError>(t),
            Err(k) => r is Err && names_fault(r->Err_0, name@, k),
        },
{
    let fault = match ty {
        FieldType::Other => FieldFault::NotAPath,
        FieldType::Path(segs) => match find_last_signal(segs) {
            None => FieldFault::NotASignal,
            Some(i) => match &segs[i].args {
                SegmentArgs::AngleBracketed(args) => {
                    if args.len() > 0 {
                        match &args[0] {
                            GenericArg::Type(t) => {
                                return Ok(t.clone());
                            },
                            GenericArg::Other => FieldFault::InvalidTypeParameters,
                        }
                    } else {
                        FieldFault::InvalidTypeParameters
                    }
                },
                _ => FieldFault::MissingTypeParameters,
            },
        },
    };
    Err(SchemaError::BadField { field: name.clone(), fault })
}

/// `e` reports `fault` on the field named `name`.
pub open spec fn names_fault(e: SchemaError, name: Seq<char>, fault: FieldFault) -> bool {
    e matches SchemaError::BadField { field, fault: k } && field@ == name && k == fault
}

/// The fields of `fields` declared with `role`, in declaration order.
pub open spec fn fields_with_role(fields: Seq<FieldDecl>, role: Role) -> Seq<FieldDecl>
    decreases fields.len(),
{
    if fields.len() == 0 {
        Seq::empty()
    } else if role_of(fields.last()) == role {
        fields_with_role(fields.drop_last(), role).push(fields.last())
    } else {
        fields_with_role(fields.drop_last(), role)
    }
}

/// Why field `f` cannot be compiled, if it cannot: only input and output
/// fields must be wires.
pub open spec fn field_fault(f: FieldDecl) -> Option<FieldFault> {
    if (role_of(f) == Role::Input || role_of(f) == Role::Output) && signal_inner(f.ty) is Err {
        Some(signal_inner(f.ty)->Err_0)
    } else {
        None
    }
}

/// The first field, in declaration order, that cannot be compiled, and why.
pub open spec fn first_fault(fields: Seq<FieldDecl>) -> Option<(FieldDecl, FieldFault)>
    decreases fields.len(),
{
    if fields.len() == 0 {
        None
    } else {
        match first_fault(fields.drop_last()) {
            Some(p) => Some(p),
            None => match field_fault(fields.last()) {
                Some(k) => Some((fields.last(), k)),
                None => None,
            },
        }
    }
}

/// A fault found in a prefix of the fields is the first fault of them all.
proof fn lemma_first_fault_prefix(fields: Seq<FieldDecl>, n: int)
    requires
        0 <= n <= fields.len(),
        first_fault(fields.take(n)) is Some,
    ensures
        first_fault(fields) == first_fault(fields.take(n)),
    decreases fields.len(),
{
    if n < fields.len() {
        assert(fields.drop_last().take(n) =~= fields.take(n));
        lemma_first_fault_prefix(fields.drop_last(), n);
    } else {
        assert(fields.take(n) =~= fields);
    }
}

/// Accessor `a` is the method `prefix` + name that forwards to wire field `f`.
pub open spec fn accessor_for(a: SignalAccessor, f: FieldDecl, prefix: Seq<char>) -> bool {
    &&& a.field@ == f.name@
    &&& a.method@ == prefix + f.name@
    &&& signal_inner(f.ty) == Ok::<syn::Type, FieldFault>(a.inner_ty)
}

/// One accessor per field of `fs`, in the same order.
pub open spec fn accessors_for(accs: Seq<SignalAccessor>, fs: Seq<FieldDecl>, prefix: Seq<char>) -> bool {
    &&& accs.len() == fs.len()
    &&& forall|k: int| 0 <= k < accs.len() ==> #[trigger] accessor_for(accs[k], fs[k], prefix)
}

/// One name per field of `fs`, in the same order.
pub open spec fn names_of(names: Seq<String>, fs: Seq<FieldDecl>) -> bool {
    &&& names.len() == fs.len()
    &&& forall|k: int| 0 <= k < names.len() ==> #[trigger] names[k]@ == fs[k].name@
}

/// `p` is exactly the surface generated for `fields`: a drive method per
/// input, a sample method per output, an edge forward per clocked field.
pub open spec fn plan_for(p: ModulePlan, fields: Seq<FieldDecl>) -> bool {
    &&& accessors_for(p.drives@, fields_with_role(fields, Role::Input), "drive_"@)
    &&& accessors_for(p.samples@, fields_with_role(fields, Role::Output), "sample_"@)
    &&& names_of(p.clocked@, fields_with_role(fields, Role::Clocked))
}

/// The accessor `prefix` + name for a wire field whose value type is `inner_ty`.
fn make_accessor(prefix: &str, f: &FieldDecl, inner_ty: syn::Type) -> (r: SignalAccessor)
    ensures
        r.field@ == f.name@,
        r.method@ == prefix@ + f.name@,
        r.inner_ty == inner_ty,
{
    let mut method = String::from_str(prefix);
    method.append(f.name.as_str());
    SignalAccessor { field: f.name.clone(), method, inner_ty }
}

/// Compile a module declaration into its generated surface, or the schema
/// error that stops generation.
pub fn derive_module(shape: &ModuleShape) -> (r: Result<ModulePlan, SchemaError>)
    ensures
        match shape {
            ModuleShape::NotAStruct => r matches Err(SchemaError::NotAStruct),
            ModuleShape::Unnamed => r matches Err(SchemaError::UnnamedFields),
            ModuleShape::Named(fields) => match first_fault(fields@) {
                Some((f, k)) => r is Err && names_fault(r->Err_0, f.name@, k),
                None => r is Ok && plan_for(r->Ok_0, fields@),
            },
        },
{
    match shape {
        ModuleShape::Named(fields) => derive_fields(fields),
        ModuleShape::Unnamed => Err(SchemaError::UnnamedFields),
        ModuleShape::NotAStruct => Err(SchemaError::NotAStruct),
    }
}

/// Compile the named fields of a module declaration.
pub fn derive_fields(fields: &Vec<FieldDecl>) -> (r: Result<ModulePlan, SchemaError>)
    ensures
        match first_fault(fields@) {
            Some((f, k)) => r is Err && names_fault(r->Err_0, f.name@, k),
            None => r is Ok && plan_for(r->Ok_0, fields@),
        },
{
    let mut drives: Vec<SignalAccessor> = Vec::new();
    let mut samples: Vec<SignalAccessor> = Vec::new();
    let mut clocked: Vec<String> = Vec::new();
    let mut i: usize = 0;
    while i < fields.len()
        invariant
            i <= fields@.len(),
            first_fault(fields@.take(i as int)) is None,
            plan_for(ModulePlan { drives, samples, clocked }, fields@.take(i as int)),
        decreases fields@.len() - i,
    {
        let f = &fields[i];
        let ghost done = fields@.take(i as int);
        let ghost next = fields@.take(i + 1);
        assert(next.drop_last() =~= done);
        assert(next.last() == *f);
        let role = field_role(f);
        if role == Role::Input || role == Role::Output {
            let inner_ty = match extract_signal_type(&f.name, &f.ty) {
                Ok(t) => t,
                Err(e) => {
                    proof {
                        lemma_first_fault_prefix(fields@, i + 1);
                    }
                    return Err(e);
                },
            };
            if role == Role::Input {
                let a = make_accessor("drive_", f, inner_ty);
                drives.push(a);
            } else {
                let a = make_accessor("sample_", f, inner_ty);
                samples.push(a);
            }
        } else if role == Role::Clocked {
            clocked.push(f.name.clone());
        }
        i = i + 1;
    }
    assert(fields@.take(i as int) =~= fields@);
    Ok(ModulePlan { drives, samples, clocked })
}

} // verus!
