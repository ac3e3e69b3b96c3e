use vstd::prelude::*;

use crate::catalog::known_opcode;
use crate::catalog::lookup_opcode;
use crate::chain::Chain;
use crate::chain::Construction;
use crate::syntax::Syntax;

verus! {

/// The one error generation can raise: an `Opcode` item whose name is not a
/// member of the opcode catalog. It carries the offending name and the
/// item's source-position marker, for the diagnostic.
#[derive(Debug)]
pub struct GenerateError {
    pub name: String,
    pub span: proc_macro2::Span,
}

/// Every item of `items` is acceptable to the generator: an `Opcode` item
/// names a catalog member, and any other item is always acceptable.
pub open spec fn item_ok(item: (Syntax, proc_macro2::Span)) -> bool {
    match item.0 {
        Syntax::Opcode(n) => known_opcode(n@),
        _ => true,
    }
}

/// All items of the sequence are acceptable to the generator.
pub open spec fn all_items_ok(items: Seq<(Syntax, proc_macro2::Span)>) -> bool {
    forall|i: int| 0 <= i < items.len() ==> item_ok(#[trigger] items[i])
}

/// The error `e` reports the item at position `i`: the first unacceptable
/// item of the sequence, an `Opcode` whose name is unknown to the catalog,
/// with the error carrying that name and that item's marker.
pub open spec fn fails_at(
    items: Seq<(Syntax, proc_macro2::Span)>,
    i: int,
    e: GenerateError,
) -> bool {
    &&& 0 <= i < items.len()
    &&& items[i].0 matches Syntax::Opcode(n)
    &&& !known_opcode(n@)
    &&& e.name@ == n@
    &&& e.span == items[i].1
    &&& forall|j: int| 0 <= j < i ==> item_ok(#[trigger] items[j])
}

/// Append the catalog member named `name` to `base`, or fail when the name
/// is not in the catalog.
fn generate_opcode(base: Chain, name: String, span: proc_macro2::Span) -> (r: Result<
    Chain,
    GenerateError,
>)
    ensures
        r matches Ok(c) ==> {
            &&& c matches Chain::Opcode { base: b, code, name: n, span: s }
            &&& *b == base
            &&& crate::catalog::opcode_name_of(code) == name@
            &&& n == name
            &&& s == span
        },
        r is Ok <==> known_opcode(name@),
        r matches Err(e) ==> !known_opcode(name@) && e.name == name && e.span == span,
{
    match lookup_opcode(&name) {
        Some(code) => Ok(Chain::Opcode { base: Box::new(base), code, name, span }),
        None => Err(GenerateError { name, span }),
    }
}

/// Append the literal byte sequence `bytes` to `base`.
fn generate_bytes(base: Chain, bytes: Vec<u8>, span: proc_macro2::Span) -> (c: Chain)
    ensures
        c matches Chain::Bytes { base: b, bytes: by, span: s } && *b == base && by == bytes && s
            == span,
{
    Chain::Bytes { base: Box::new(base), bytes, span }
}

/// Append the literal integer `value` to `base`; the value is passed
/// through untouched, the builder owns its minimal encoding.
fn generate_int(base: Chain, value: i64, span: proc_macro2::Span) -> (c: Chain)
    ensures
        c matches Chain::Int { base: b, value: v, span: s } && *b == base && v == value && s
            == span,
{
    Chain::Int { base: Box::new(base), value, span }
}

/// Flush on an escaped item: close `base` off as one value and make the
/// escaped expression's push its new base.
fn generate_escape(base: Chain, expr: proc_macro2::TokenStream, span: proc_macro2::Span) -> (c:
    Chain)
    ensures
        c matches Chain::Push { base: b, expr: e, span: s } && *b == base && e == expr && s
            == span,
{
    Chain::Push { base: Box::new(base), expr, span }
}

/// Fold the ordered item sequence into one construction expression.
///
/// On success the construction's chain translates the whole input, item by
/// item and in order (`chain_matches`). Generation succeeds exactly when
/// every `Opcode` item names a catalog member; otherwise it fails
/// atomically, reporting the first unknown opcode name with that item's
/// source-position marker, and no construction is produced.
pub fn generate(syntax: Vec<(Syntax, proc_macro2::Span)>) -> (r: Result<
    Construction,
    GenerateError,
>)
    ensures
        r matches Ok(c) ==> crate::chain::chain_matches(c.chain, syntax@),
        r is Ok <==> all_items_ok(syntax@),
        r matches Err(e) ==> exists|i: int| fails_at(syntax@, i, e),
{
    let ghost orig = syntax@;
    let mut rest = syntax;
    let mut chain = Chain::Begin;
    while rest.len() > 0
        invariant
            orig == syntax@,
            rest@.len() <= orig.len(),
            rest@ == orig.skip(orig.len() - rest@.len()),
            crate::chain::chain_matches(chain, orig.take(orig.len() - rest@.len())),
            all_items_ok(orig.take(orig.len() - rest@.len())),
        decreases rest@.len(),
    {
        let ghost k: int = orig.len() - rest@.len();
        let (item, span) = rest.remove(0);
        proof {
            assert(orig.skip(k)[0] == orig[k]);
            assert(rest@ =~= orig.skip(k + 1));
            assert(orig.take(k + 1).drop_last() =~= orig.take(k));
            assert(orig.take(k + 1).last() == orig[k]);
        }
        chain = match item {
            Syntax::Opcode(name) => {
                match generate_opcode(chain, name, span) {
                    Ok(c) => c,
                    Err(e) => {
                        let r: Result<Construction, GenerateError> = Err(e);
                        proof {
                            assert forall|j: int| 0 <= j < k implies item_ok(
                                #[trigger] orig[j],
                            ) by {
                                assert(item_ok(orig.take(k)[j]));
                            }
                            assert(r matches Err(e2) && fails_at(syntax@, k, e2));
                        }
                        return r;
                    },
                }
            },
            Syntax::Bytes(bytes) => generate_bytes(chain, bytes, span),
            Syntax::Int(value) => generate_int(chain, value, span),
            Syntax::Escape(expr) => generate_escape(chain, expr, span),
        };
        proof {
            assert(crate::chain::chain_matches(chain, orig.take(k + 1)));
            assert forall|i: int| 0 <= i < k + 1 implies item_ok(#[trigger] orig.take(k + 1)[i]) by {
                if i < k {
                    assert(item_ok(orig.take(k)[i]));
                }
            }
        }
    }
    proof {
        assert(orig.take(orig.len() as int) =~= orig);
    }
    Ok(Construction { chain })
}

} // verus!
