//! The derivation generator: from a record type's shape descriptor to the
//! source text of an `Empty` implementation.
//!
//! The generated implementation constructs an instance whose every field is
//! the empty value of that field's declared type, by invoking `Empty::empty`
//! recursively on each field type. The type's generic parameters and `where`
//! clause are preserved verbatim; no `Empty` bound is added to generic
//! parameters, since many containers (such as `Vec<T>` or `Option<T>`)
//! implement `Empty` without requiring it of their element type.

use vstd::prelude::*;
use vstd::string::StringExecFns;

use crate::shape::{DeriveError, NamedField, Shape, TypeData, TypeDef};

verus! {

/// The text of one recursive invocation of `empty` on a field type:
/// `<TY as leer::Empty>::empty()`.
pub open spec fn empty_call_text(ty: Seq<char>) -> Seq<char> {
    "<"@ + ty + " as leer::Empty>::empty()"@
}

/// The initializer emitted for one named field:
/// `NAME: <TY as leer::Empty>::empty(), `.
pub open spec fn named_init_text(f: NamedField) -> Seq<char> {
    f.name@ + ": "@ + empty_call_text(f.ty@) + ", "@
}

/// The initializers emitted for a sequence of named fields, in declaration
/// order.
pub open spec fn named_inits_text(fields: Seq<NamedField>) -> Seq<char>
    decreases fields.len(),
{
    if fields.len() == 0 {
        Seq::<char>::empty()
    } else {
        named_inits_text(fields.drop_last()) + named_init_text(fields.last())
    }
}

/// The initializer emitted for one positional field:
/// `<TY as leer::Empty>::empty(), `.
pub open spec fn positional_init_text(ty: Seq<char>) -> Seq<char> {
    empty_call_text(ty) + ", "@
}

/// The initializers emitted for a sequence of positional fields, in original
/// order.
pub open spec fn positional_inits_text(tys: Seq<String>) -> Seq<char>
    decreases tys.len(),
{
    if tys.len() == 0 {
        Seq::<char>::empty()
    } else {
        positional_inits_text(tys.drop_last()) + positional_init_text(tys.last()@)
    }
}

/// The construction expression emitted for each shape: the bare name for a
/// unit struct, a call-style construction for positional fields, and a
/// field-initializer list for named fields.
pub open spec fn body_text(name: Seq<char>, shape: Shape) -> Seq<char> {
    match shape {
        Shape::Unit => name,
        Shape::Positional(tys) => name + "("@ + positional_inits_text(tys@) + ")"@,
        Shape::Named(fields) => "Self { "@ + named_inits_text(fields@) + "}"@,
    }
}

/// The `where` clause as it appears in the emitted header: preceded by one
/// space, or absent when the type has none.
pub open spec fn where_text(wc: Seq<char>) -> Seq<char> {
    if wc.len() == 0 {
        Seq::<char>::empty()
    } else {
        " "@ + wc
    }
}

/// The whole emitted implementation for a record type of the given shape.
pub open spec fn impl_text(d: TypeDef, shape: Shape) -> Seq<char> {
    "impl"@ + d.impl_generics@ + " leer::Empty for "@ + d.name@ + d.ty_generics@
        + where_text(d.where_clause@) + " { fn empty() -> Self { "@
        + body_text(d.name@, shape) + " } }"@
}

/// What the generator emits for a type definition: the implementation text
/// for a record type, and nothing for a sum type (which is rejected).
pub open spec fn derive_output(d: TypeDef) -> Seq<char> {
    match d.data {
        TypeData::Record(shape) => impl_text(d, shape),
        TypeData::Sum => Seq::<char>::empty(),
    }
}

/// Law: the initializer list emitted for a concatenation of named-field
/// lists is the concatenation of the lists' initializer texts.
pub proof fn lemma_named_inits_concat(a: Seq<NamedField>, b: Seq<NamedField>)
    ensures
        named_inits_text(a + b) == named_inits_text(a) + named_inits_text(b),
    decreases b.len(),
{
    if b.len() == 0 {
        assert(a + b =~= a);
        assert(named_inits_text(a) + named_inits_text(b) =~= named_inits_text(a));
    } else {
        lemma_named_inits_concat(a, b.drop_last());
        assert((a + b).drop_last() =~= a + b.drop_last());
        assert(named_inits_text(a) + named_inits_text(b) =~= named_inits_text(a)
            + named_inits_text(b.drop_last()) + named_init_text(b.last()));
    }
}

/// Law: for a record type with named shape, the emitted construction holds
/// one initializer per field, in declaration order: at every position `i`
/// stands exactly the initializer that invokes `empty` on the declared type
/// of field `i`.
pub proof fn lemma_named_init_at_each_field(fields: Seq<NamedField>, i: int)
    requires
        0 <= i < fields.len(),
    ensures
        named_inits_text(fields) == named_inits_text(fields.take(i))
            + named_init_text(fields[i]) + named_inits_text(fields.skip(i + 1)),
{
    let middle = seq![fields[i]];
    assert(fields =~= fields.take(i) + middle + fields.skip(i + 1));
    lemma_named_inits_concat(fields.take(i) + middle, fields.skip(i + 1));
    lemma_named_inits_concat(fields.take(i), middle);
    assert(middle.drop_last() =~= Seq::<NamedField>::empty());
    assert(named_inits_text(middle.drop_last()) =~= Seq::<char>::empty());
    assert(middle.last() == fields[i]);
    assert(named_inits_text(middle) =~= named_init_text(fields[i]));
}

/// Law: the initializer list emitted for a concatenation of positional
/// field-type lists is the concatenation of the lists' initializer texts.
pub proof fn lemma_positional_inits_concat(a: Seq<String>, b: Seq<String>)
    ensures
        positional_inits_text(a + b) == positional_inits_text(a) + positional_inits_text(b),
    decreases b.len(),
{
    if b.len() == 0 {
        assert(a + b =~= a);
        assert(positional_inits_text(a) + positional_inits_text(b)
            =~= positional_inits_text(a));
    } else {
        lemma_positional_inits_concat(a, b.drop_last());
        assert((a + b).drop_last() =~= a + b.drop_last());
        assert(positional_inits_text(a) + positional_inits_text(b)
            =~= positional_inits_text(a) + positional_inits_text(b.drop_last())
            + positional_init_text(b.last()@));
    }
}

/// Law: for a record type with positional shape of arity `N`, the emitted
/// construction holds one argument per field, in original order: at every
/// position `i` in `[0, N)` stands exactly the initializer that invokes
/// `empty` on the declared type of field `i`.
pub proof fn lemma_positional_init_at_each_field(tys: Seq<String>, i: int)
    requires
        0 <= i < tys.len(),
    ensures
        positional_inits_text(tys) == positional_inits_text(tys.take(i))
            + positional_init_text(tys[i]@) + positional_inits_text(tys.skip(i + 1)),
{
    let middle = seq![tys[i]];
    assert(tys =~= tys.take(i) + middle + tys.skip(i + 1));
    lemma_positional_inits_concat(tys.take(i) + middle, tys.skip(i + 1));
    lemma_positional_inits_concat(tys.take(i), middle);
    assert(middle.drop_last() =~= Seq::<String>::empty());
    assert(positional_inits_text(middle.drop_last()) =~= Seq::<char>::empty());
    assert(middle.last() == tys[i]);
    assert(positional_inits_text(middle) =~= positional_init_text(tys[i]@));
}

/// Appends `<TY as leer::Empty>::empty()` for one field type.
fn push_empty_call(out: &mut String, ty: &str)
    ensures
        final(out)@ == old(out)@ + empty_call_text(ty@),
{
    out.append("<");
    out.append(ty);
    out.append(" as leer::Empty>::empty()");
    proof {
        assert(out@ =~= old(out)@ + empty_call_text(ty@));
    }
}

/// Appends the initializers for a list of named fields, in declaration order.
fn push_named_inits(out: &mut String, fields: &Vec<NamedField>)
    ensures
        final(out)@ == old(out)@ + named_inits_text(fields@),
{
    let mut i: usize = 0;
    while i < fields.len()
        invariant
            i <= fields@.len(),
            out@ == old(out)@ + named_inits_text(fields@.take(i as int)),
        decreases fields@.len() - i,
    {
        let f = &fields[i];
        out.append(f.name.as_str());
        out.append(": ");
        push_empty_call(out, f.ty.as_str());
        out.append(", ");
        proof {
            let prefix = fields@.take(i as int + 1);
            assert(prefix.drop_last() =~= fields@.take(i as int));
            assert(prefix.last() == fields@[i as int]);
            assert(out@ =~= old(out)@ + named_inits_text(prefix));
        }
        i = i + 1;
    }
    proof {
        assert(fields@.take(fields@.len() as int) =~= fields@);
    }
}

/// Appends the initializers for a list of positional field types, in
/// original order.
fn push_positional_inits(out: &mut String, tys: &Vec<String>)
    ensures
        final(out)@ == old(out)@ + positional_inits_text(tys@),
{
    let mut i: usize = 0;
    while i < tys.len()
        invariant
            i <= tys@.len(),
            out@ == old(out)@ + positional_inits_text(tys@.take(i as int)),
        decreases tys@.len() - i,
    {
        push_empty_call(out, tys[i].as_str());
        out.append(", ");
        proof {
            let prefix = tys@.take(i as int + 1);
            assert(prefix.drop_last() =~= tys@.take(i as int));
            assert(prefix.last() == tys@[i as int]);
            assert(out@ =~= old(out)@ + positional_inits_text(prefix));
        }
        i = i + 1;
    }
    proof {
        assert(tys@.take(tys@.len() as int) =~= tys@);
    }
}

/// Builds the construction expression for a record type of the given shape.
fn body_source(name: &String, shape: &Shape) -> (r: String)
    ensures
        r@ == body_text(name@, *shape),
{
    match shape {
        Shape::Unit => name.clone(),
        Shape::Positional(tys) => {
            let mut out = name.clone();
            out.append("(");
            push_positional_inits(&mut out, tys);
            out.append(")");
            proof {
                assert(out@ =~= body_text(name@, *shape));
            }
            out
        }
        Shape::Named(fields) => {
            let mut out = String::from_str("Self { ");
            push_named_inits(&mut out, fields);
            out.append("}");
            proof {
                assert(out@ =~= body_text(name@, *shape));
            }
            out
        }
    }
}

/// Generates the `impl Empty` source text for the given type definition.
///
/// Generation succeeds exactly on record types, and the emitted text is
/// pinned down field by field by [`derive_output`]; a sum type is rejected
/// with the one diagnostic the generator owns.
pub fn derive_impl(input: &TypeDef) -> (r: Result<String, DeriveError>)
    ensures
        match r {
            Ok(out) => input.data is Record && out@ == derive_output(*input),
            Err(e) => input.data is Sum && e == DeriveError::UnsupportedShape,
        },
{
    let shape = match &input.data {
        TypeData::Record(shape) => shape,
        TypeData::Sum => {
            return Err(DeriveError::UnsupportedShape);
        }
    };
    let mut out = String::from_str("impl");
    out.append(input.impl_generics.as_str());
    out.append(" leer::Empty for ");
    out.append(input.name.as_str());
    out.append(input.ty_generics.as_str());
    if !input.where_clause.as_str().is_empty() {
        out.append(" ");
        out.append(input.where_clause.as_str());
    }
    out.append(" { fn empty() -> Self { ");
    let body = body_source(&input.name, shape);
    out.append(body.as_str());
    out.append(" } }");
    proof {
        assert(out@ =~= derive_output(*input));
    }
    Ok(out)
}

} // verus!
