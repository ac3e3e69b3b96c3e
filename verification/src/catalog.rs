use vstd::prelude::*;

verus! {

/// The name under which the opcode catalog lists the instruction byte `b`.
/// The catalog is the fixed table of the `bitcoin` crate's `opcodes::all`
/// module; the name is a function of the byte alone.
pub uninterp spec fn opcode_name_of(b: u8) -> Seq<char>;

/// A name is a catalog member exactly when it is the name of some
/// instruction byte.
pub open spec fn known_opcode(name: Seq<char>) -> bool {
    exists|b: u8| opcode_name_of(b) == name
}

/// Relies on the `bitcoin` crate's `Opcode`: `From<u8>` wraps the byte
/// unchanged, and `Display` prints the byte's name from the catalog's fixed
/// table, so the result depends on the byte alone.
#[verifier::external_body]
fn opcode_name(b: u8) -> (r: String)
    ensures
        r@ == opcode_name_of(b),
{
    format!("{}", bitcoin::blockdata::opcodes::Opcode::from(b))
}

/// Look `name` up in the opcode catalog: return an instruction byte carrying
/// that name, or `None` when no instruction does.
pub fn lookup_opcode(name: &String) -> (r: Option<u8>)
    ensures
        r matches Some(code) ==> opcode_name_of(code) == name@,
        r is None ==> !known_opcode(name@),
{
    let mut b: u16 = 0;
    while b < 256
        invariant
            b <= 256,
            forall|x: u8| (x as int) < (b as int) ==> #[trigger] opcode_name_of(x) != name@,
        decreases 256 - b,
    {
        let candidate = opcode_name(b as u8);
        if candidate == *name {
            return Some(b as u8);
        }
        b = b + 1;
    }
    None
}

} // verus!
