use vstd::prelude::*;

use crate::catalog::opcode_name_of;
use crate::syntax::Syntax;

verus! {

/// A script-construction expression as the generator builds it: a chain of
/// builder operations. `Begin` is the empty builder; every other node appends one
/// operation to the chain below it. A `Push` node is the flush taken on an
/// escaped item: the whole chain below it is closed off as one value and
/// handed, with the escaped expression, to the polymorphic push, whose
/// result carries the rest of the chain.
pub enum Chain {
    /// `begin_empty()`: the empty builder the chain starts from.
    Begin,
    /// Append the catalog member named `name`, whose instruction byte is
    /// `code`, to the chain below.
    Opcode { base: Box<Chain>, code: u8, name: String, span: proc_macro2::Span },
    /// Append the literal byte sequence `bytes`, as one data push, to the
    /// chain below.
    Bytes { base: Box<Chain>, bytes: Vec<u8>, span: proc_macro2::Span },
    /// Append the literal integer `value`, minimally encoded by the builder,
    /// to the chain below.
    Int { base: Box<Chain>, value: i64, span: proc_macro2::Span },
    /// Flush: close the chain below as one value and push the escaped
    /// expression `expr` onto it through the push capability.
    Push { base: Box<Chain>, expr: proc_macro2::TokenStream, span: proc_macro2::Span },
}

/// The finished construction expression: a chain with the final
/// `finalize()` step that turns the builder into the immutable script.
pub struct Construction {
    pub chain: Chain,
}

/// The chain `c` is exactly the translation of the item sequence `items`:
/// one node per item, in the same order, with the item's payload and
/// source-position marker carried unchanged, and every opcode name resolved
/// to an instruction byte that carries that name in the catalog.
pub open spec fn chain_matches(c: Chain, items: Seq<(Syntax, proc_macro2::Span)>) -> bool
    decreases c,
{
    match c {
        Chain::Begin => items.len() == 0,
        Chain::Opcode { base, code, name, span } => {
            &&& items.len() > 0
            &&& items.last().0 matches Syntax::Opcode(n)
            &&& name@ == n@
            &&& opcode_name_of(code) == n@
            &&& span == items.last().1
            &&& chain_matches(*base, items.drop_last())
        },
        Chain::Bytes { base, bytes, span } => {
            &&& items.len() > 0
            &&& items.last().0 matches Syntax::Bytes(b)
            &&& bytes@ == b@
            &&& span == items.last().1
            &&& chain_matches(*base, items.drop_last())
        },
        Chain::Int { base, value, span } => {
            &&& items.len() > 0
            &&& items.last().0 matches Syntax::Int(n)
            &&& value == n
            &&& span == items.last().1
            &&& chain_matches(*base, items.drop_last())
        },
        Chain::Push { base, expr, span } => {
            &&& items.len() > 0
            &&& items.last().0 matches Syntax::Escape(e)
            &&& expr == e
            &&& span == items.last().1
            &&& chain_matches(*base, items.drop_last())
        },
    }
}

/// One builder operation of a chain, read off for specification purposes:
/// the payload and marker of the node, without the chain below it.
pub enum ChainOp {
    Opcode { code: u8, name: Seq<char>, span: proc_macro2::Span },
    Bytes { bytes: Seq<u8>, span: proc_macro2::Span },
    Int { value: i64, span: proc_macro2::Span },
    Push { expr: proc_macro2::TokenStream, span: proc_macro2::Span },
}

/// The operations of the chain, flattened in the order in which the built
/// script receives them: the operation of the deepest node first.
pub open spec fn chain_ops(c: Chain) -> Seq<ChainOp>
    decreases c,
{
    match c {
        Chain::Begin => Seq::empty(),
        Chain::Opcode { base, code, name, span } => chain_ops(*base).push(
            ChainOp::Opcode { code, name: name@, span },
        ),
        Chain::Bytes { base, bytes, span } => chain_ops(*base).push(
            ChainOp::Bytes { bytes: bytes@, span },
        ),
        Chain::Int { base, value, span } => chain_ops(*base).push(ChainOp::Int { value, span }),
        Chain::Push { base, expr, span } => chain_ops(*base).push(ChainOp::Push { expr, span }),
    }
}

/// The operation `op` is the one translation of the item: an opcode item
/// becomes exactly one opcode append whose name is the item's and whose
/// byte carries that name in the catalog; a byte item one byte-slice append
/// with the same bytes in the same order; an integer item one integer
/// append with the value unchanged; an escaped item one flush-and-push of
/// the same expression. The item's marker is carried over in every case.
pub open spec fn op_for(item: (Syntax, proc_macro2::Span), op: ChainOp) -> bool {
    match item.0 {
        Syntax::Opcode(n) => {
            &&& op matches ChainOp::Opcode { code, name, span }
            &&& name == n@
            &&& opcode_name_of(code) == n@
            &&& span == item.1
        },
        Syntax::Bytes(b) => {
            &&& op matches ChainOp::Bytes { bytes, span }
            &&& bytes == b@
            &&& span == item.1
        },
        Syntax::Int(v) => {
            &&& op matches ChainOp::Int { value, span }
            &&& value == v
            &&& span == item.1
        },
        Syntax::Escape(e) => {
            &&& op matches ChainOp::Push { expr, span }
            &&& expr == e
            &&& span == item.1
        },
    }
}

/// Order preservation: a chain that translates an item sequence holds, once
/// flattened, exactly one operation per item, in exactly the input order —
/// nothing reordered, dropped or duplicated — and each operation is the one
/// translation of its item.
pub proof fn lemma_order_preservation(c: Chain, items: Seq<(Syntax, proc_macro2::Span)>)
    requires
        chain_matches(c, items),
    ensures
        chain_ops(c).len() == items.len(),
        forall|i: int| 0 <= i < items.len() ==> op_for(items[i], #[trigger] chain_ops(c)[i]),
    decreases c,
{
    match c {
        Chain::Begin => {},
        Chain::Opcode { base, .. } => {
            lemma_order_preservation(*base, items.drop_last());
        },
        Chain::Bytes { base, .. } => {
            lemma_order_preservation(*base, items.drop_last());
        },
        Chain::Int { base, .. } => {
            lemma_order_preservation(*base, items.drop_last());
        },
        Chain::Push { base, .. } => {
            lemma_order_preservation(*base, items.drop_last());
        },
    }
}

/// Opcode mapping: an `Opcode(X)` item yields exactly one opcode append,
/// at the item's position, naming `X` and carrying the instruction byte
/// that the catalog lists under `X`.
pub proof fn lemma_opcode_mapping(c: Chain, items: Seq<(Syntax, proc_macro2::Span)>, i: int)
    requires
        chain_matches(c, items),
        0 <= i < items.len(),
        items[i].0 is Opcode,
    ensures
        chain_ops(c)[i] matches ChainOp::Opcode { code, name, span } && name == items[i].0
            ->Opcode_0@ && opcode_name_of(code) == name && span == items[i].1,
{
    lemma_order_preservation(c, items);
}

/// Byte fidelity: a `Bytes` item yields exactly one byte-slice append, at
/// the item's position, whose bytes equal the item's, length and order
/// included, the empty sequence among them.
pub proof fn lemma_byte_fidelity(c: Chain, items: Seq<(Syntax, proc_macro2::Span)>, i: int)
    requires
        chain_matches(c, items),
        0 <= i < items.len(),
        items[i].0 is Bytes,
    ensures
        chain_ops(c)[i] matches ChainOp::Bytes { bytes, span } && bytes == items[i].0->Bytes_0@
            && span == items[i].1,
{
    lemma_order_preservation(c, items);
}

/// Integer pass-through: an `Int(n)` item yields exactly one integer
/// append, at the item's position, with `n` unchanged, over the whole
/// signed 64-bit range.
pub proof fn lemma_integer_pass_through(c: Chain, items: Seq<(Syntax, proc_macro2::Span)>, i: int)
    requires
        chain_matches(c, items),
        0 <= i < items.len(),
        items[i].0 is Int,
    ensures
        chain_ops(c)[i] matches ChainOp::Int { value, span } && value == items[i].0->Int_0 && span
            == items[i].1,
{
    lemma_order_preservation(c, items);
}

/// Empty input: the only chain that translates the empty item sequence is
/// the bare empty builder, so the whole construction is
/// `begin_empty().finalize()` and nothing else.
pub proof fn lemma_empty_input(c: Chain)
    requires
        chain_matches(c, Seq::empty()),
    ensures
        c is Begin,
{
}

/// The construction `push(begin_empty().append_opcode(A), E).append_opcode(B)`:
/// the chain built before the escape is fully closed and passed as a value
/// to the push, not chained symbolically across the escape boundary, and
/// the item after the escape chains on the push's result.
pub open spec fn escape_isolation_shape(
    c: Chain,
    a: (Syntax, proc_macro2::Span),
    e: (Syntax, proc_macro2::Span),
    b: (Syntax, proc_macro2::Span),
) -> bool {
    &&& c matches Chain::Opcode { base: b_base, code: b_code, name: b_name, span: b_span }
    &&& b.0 matches Syntax::Opcode(b_n)
    &&& b_name@ == b_n@
    &&& opcode_name_of(b_code) == b_n@
    &&& b_span == b.1
    &&& *b_base matches Chain::Push { base: e_base, expr: e_expr, span: e_span }
    &&& e.0 matches Syntax::Escape(e_x)
    &&& e_expr == e_x
    &&& e_span == e.1
    &&& *e_base matches Chain::Opcode { base: a_base, code: a_code, name: a_name, span: a_span }
    &&& a.0 matches Syntax::Opcode(a_n)
    &&& a_name@ == a_n@
    &&& opcode_name_of(a_code) == a_n@
    &&& a_span == a.1
    &&& *a_base is Begin
}

/// Escape isolation: the only chain that translates
/// `[Opcode(A), Escape(E), Opcode(B)]` is structurally
/// `push(begin_empty().append_opcode(A), E).append_opcode(B)`.
pub proof fn lemma_escape_isolation(
    c: Chain,
    a: (Syntax, proc_macro2::Span),
    e: (Syntax, proc_macro2::Span),
    b: (Syntax, proc_macro2::Span),
)
    requires
        chain_matches(c, seq![a, e, b]),
        a.0 is Opcode,
        e.0 is Escape,
        b.0 is Opcode,
    ensures
        escape_isolation_shape(c, a, e, b),
{
    let items = seq![a, e, b];
    assert(items.last() == b);
    assert(items.drop_last() =~= seq![a, e]);
    match c {
        Chain::Opcode { base, .. } => {
            let items2 = seq![a, e];
            assert(chain_matches(*base, items2));
            assert(items2.last() == e);
            assert(items2.drop_last() =~= seq![a]);
            match *base {
                Chain::Push { base: inner, .. } => {
                    let items3 = seq![a];
                    assert(chain_matches(*inner, items3));
                    assert(items3.last() == a);
                    assert(items3.drop_last() =~= Seq::<(Syntax, proc_macro2::Span)>::empty());
                    match *inner {
                        Chain::Opcode { base: start, .. } => {
                            lemma_empty_input(*start);
                        },
                        _ => {
                            assert(false);
                        },
                    }
                },
                _ => {
                    assert(false);
                },
            }
        },
        _ => {
            assert(false);
        },
    }
}

/// The construction `push(push(begin_empty(), E1), E2)`: each escape
/// flushes independently and nests around the previous result.
pub open spec fn nested_escapes_shape(
    c: Chain,
    e1: (Syntax, proc_macro2::Span),
    e2: (Syntax, proc_macro2::Span),
) -> bool {
    &&& c matches Chain::Push { base: outer_base, expr: x2, span: s2 }
    &&& e2.0 matches Syntax::Escape(v2)
    &&& x2 == v2
    &&& s2 == e2.1
    &&& *outer_base matches Chain::Push { base: inner_base, expr: x1, span: s1 }
    &&& e1.0 matches Syntax::Escape(v1)
    &&& x1 == v1
    &&& s1 == e1.1
    &&& *inner_base is Begin
}

/// Multiple escapes: the only chain that translates
/// `[Escape(E1), Escape(E2)]` is structurally
/// `push(push(begin_empty(), E1), E2)`.
pub proof fn lemma_nested_escapes(
    c: Chain,
    e1: (Syntax, proc_macro2::Span),
    e2: (Syntax, proc_macro2::Span),
)
    requires
        chain_matches(c, seq![e1, e2]),
        e1.0 is Escape,
        e2.0 is Escape,
    ensures
        nested_escapes_shape(c, e1, e2),
{
    let items = seq![e1, e2];
    assert(items.last() == e2);
    assert(items.drop_last() =~= seq![e1]);
    match c {
        Chain::Push { base, .. } => {
            let items2 = seq![e1];
            assert(chain_matches(*base, items2));
            assert(items2.last() == e1);
            assert(items2.drop_last() =~= Seq::<(Syntax, proc_macro2::Span)>::empty());
            match *base {
                Chain::Push { base: inner, .. } => {
                    lemma_empty_input(*inner);
                },
                _ => {
                    assert(false);
                },
            }
        },
        _ => {
            assert(false);
        },
    }
}

} // verus!
