//! Collision-resistant identifiers (CUID2) for images and files.
use vstd::prelude::*;
use cuid2::CuidConstructor;
use crate::domain::traits::IdGenerator;

verus! {

/// A character that a CUID2 body may hold: a digit or a lowercase ASCII letter.
pub open spec fn is_cuid_char(c: char) -> bool {
    ('0' <= c && c <= '9') || ('a' <= c && c <= 'z')
}

/// The shape of every CUID2: at least two characters, a lowercase letter
/// first, then digits and lowercase letters.
pub open spec fn is_cuid(id: Seq<char>) -> bool {
    &&& id.len() >= 2
    &&& 'a' <= id[0] && id[0] <= 'z'
    &&& forall|i: int| 0 <= i < id.len() ==> is_cuid_char(#[trigger] id[i])
}

/// The constructor of CUID2 identifiers of the `cuid2` crate.
#[verifier::external_type_specification]
#[verifier::external_body]
pub struct ExCuidConstructor(cuid2::CuidConstructor);

/// Calls `cuid2::create_id`, which uses the crate's default constructor (length
/// 24). Claims only the shape that every outcome has: a lowercase letter, then
/// a hash truncated to 23 base-36 digits; at most 24 characters in all. The
/// identifier is random, so nothing ties two calls together.
#[verifier::external_body]
pub fn create_id() -> (id: String)
    ensures
        is_cuid(id@),
        id@.len() <= 24,
{
    cuid2::create_id()
}

/// Calls `cuid2::CuidConstructor::new`, a constructor with the default length
/// 24; nothing is claimed of the value, which Verus does not see into.
#[verifier::external_body]
fn new_constructor() -> CuidConstructor {
    CuidConstructor::new()
}

/// Calls `cuid2::CuidConstructor::create_id`. Claims the shape that every
/// outcome has whatever the constructor's length (which the crate keeps at 2 or
/// more): a lowercase letter, then lowercase base-36 digits. The identifier is
/// random.
#[verifier::external_body]
fn constructor_create_id(constructor: &CuidConstructor) -> (id: String)
    ensures
        is_cuid(id@),
{
    constructor.create_id()
}

/// Generates CUID2 identifiers.
pub struct Cuid2Generator {
    constructor: CuidConstructor,
}

impl Cuid2Generator {
    /// A generator with the default CUID2 settings.
    pub fn new() -> Self {
        Cuid2Generator { constructor: new_constructor() }
    }
}

impl Default for Cuid2Generator {
    fn default() -> Self {
        Cuid2Generator::new()
    }
}

impl IdGenerator for Cuid2Generator {
    /// A fresh identifier.
    fn generate(&self) -> (id: String)
        ensures
            is_cuid(id@),
    {
        constructor_create_id(&self.constructor)
    }
}

} // verus!
