//! Named character references.

use vstd::prelude::*;
use crate::combinator::mismatch;
use crate::errors::{Kind, MarkDownError};
use crate::input::{Cursor, TokenStream};
use crate::s::consumed;
use crate::span::{ControlFlow, Span};

verus! {

/// The byte that starts a character reference.
pub const AMPERSAND: u8 = 0x26;

/// The byte that ends a character reference.
pub const SEMICOLON: u8 = 0x3b;

/// The highest index at which the terminating `;` is still looked for.
pub const MAX_ENTITY_LEN: usize = 100;

/// The number of entries in the table of entity names.
pub const ENTITY_COUNT: usize = 2231;

/// The name, `&` and `;` included where it has them, of the entry `index` in
/// the table of HTML5 entities of the `entities` crate.
pub uninterp spec fn entity_name(index: int) -> Seq<u8>;

/// Reads `entities::ENTITIES[index].entity`, the name of one entry of the
/// static table of that crate, as bytes. The table has `ENTITY_COUNT`
/// entries; nothing is claimed of what a name holds.
#[verifier::external_body]
fn entity_at(index: usize) -> (r: &'static [u8])
    requires
        index < ENTITY_COUNT,
    ensures
        r@ == entity_name(index as int),
{
    entities::ENTITIES[index].entity.as_bytes()
}

/// `name` is the name of an entry of the table.
pub open spec fn is_entity_name(name: Seq<u8>) -> bool {
    exists|i: int| 0 <= i < ENTITY_COUNT && #[trigger] entity_name(i) == name
}

/// The first `;` of `s` stands at index `at`, within the cap.
pub open spec fn terminated_at(s: Seq<u8>, at: int) -> bool {
    &&& 0 <= at < s.len()
    &&& at <= MAX_ENTITY_LEN
    &&& s[at] == SEMICOLON
    &&& forall|j: int| 0 <= j < at ==> s[j] != SEMICOLON
}

/// The input starts with `&`, and a `;` follows within the cap.
pub open spec fn delimited(input: Cursor) -> bool {
    &&& input.text.len() > 0
    &&& input.text[0] == AMPERSAND
    &&& exists|at: int| terminated_at(input.text, at)
}

/// The failure of a reference that does not start with `&`: it is
/// recoverable and points to the byte at the cursor.
pub open spec fn not_a_reference(input: Cursor) -> MarkDownError {
    MarkDownError::Kind(Kind::Entity, mismatch(input, 1).flow(), mismatch(input, 1).region())
}

/// The failure of a reference without a `;` within the cap: it is fatal and
/// points to the bytes that were scanned, `MAX_ENTITY_LEN` at most.
pub open spec fn unterminated(input: Cursor) -> MarkDownError {
    MarkDownError::Kind(
        Kind::Entity,
        ControlFlow::Fatal,
        Span::Range(
            input.offset as usize,
            (input.offset + vstd::math::min(MAX_ENTITY_LEN as int, input.text.len() as int))
                as usize,
        ),
    )
}

/// The failure of a reference whose name is not in the table: it is fatal
/// and points to the reference, both delimiters included.
pub open spec fn unknown_name(input: Cursor, len: int) -> MarkDownError {
    MarkDownError::Kind(
        Kind::Entity,
        ControlFlow::Fatal,
        Span::Range(input.offset as usize, (input.offset + len) as usize),
    )
}

/// Tells whether two slices hold the same bytes.
fn same_bytes(a: &[u8], b: &[u8]) -> (r: bool)
    ensures
        r == (a@ == b@),
{
    let n = a.len();
    if n != b.len() {
        return false;
    }
    let mut i: usize = 0;
    while i < n
        invariant
            n == a@.len(),
            n == b@.len(),
            0 <= i <= n,
            forall|j: int| 0 <= j < i ==> a@[j] == b@[j],
        decreases n - i,
    {
        if a[i] != b[i] {
            return false;
        }
        i = i + 1;
    }
    assert(a@ =~= b@);
    true
}

/// Tells whether `name` is the name of an entry of the table.
pub fn is_known(name: &[u8]) -> (r: bool)
    ensures
        r == is_entity_name(name@),
{
    let mut i: usize = 0;
    while i < ENTITY_COUNT
        invariant
            0 <= i <= ENTITY_COUNT,
            forall|j: int| 0 <= j < i ==> entity_name(j) != name@,
        decreases ENTITY_COUNT - i,
    {
        if same_bytes(entity_at(i), name) {
            return true;
        }
        i = i + 1;
    }
    false
}

/// A named character reference: `&`, a name and `;`.
#[derive(Clone, Copy, Debug, PartialEq, Eq)]
pub struct Entity<'a>(pub TokenStream<'a>);

impl<'a> Entity<'a> {
    /// The region the reference covers.
    pub open spec fn region(self) -> Span {
        self.0@.span()
    }

    /// The bytes of the reference.
    pub open spec fn text(self) -> Seq<u8> {
        self.0.value@
    }

    /// The reference is the start of `before` up to its first `;`, which
    /// stands within the cap, and `after` is what follows it.
    pub open spec fn parsed(self, before: Cursor, after: Cursor) -> bool {
        &&& before.splits_into(self.0@, after)
        &&& self.0.value@.len() > 0
        &&& self.0.value@[0] == AMPERSAND
        &&& terminated_at(before.text, self.0.value@.len() - 1)
    }

    /// Finds the length of the reference at the cursor: the bytes from `&`
    /// to the first `;`, which is looked for up to index `MAX_ENTITY_LEN`.
    pub fn delimit(input: &TokenStream<'a>) -> (r: Result<usize, MarkDownError>)
        requires
            input.wf(),
        ensures
            r is Ok <==> delimited(input@),
            match r {
                Ok(len) => terminated_at(input.value@, len - 1),
                Err(e) => e == if input.value@.len() > 0 && input.value@[0] == AMPERSAND {
                    unterminated(input@)
                } else {
                    not_a_reference(input@)
                },
            },
    {
        match input.first() {
            Some(AMPERSAND) => {},
            _ => {
                return Err(
                    MarkDownError::Kind(
                        Kind::Entity,
                        ControlFlow::Recoverable,
                        input.to_span_at(1),
                    ),
                );
            },
        }
        let len = input.len();
        let mut index: usize = 0;
        while index < len && index <= MAX_ENTITY_LEN
            invariant
                len == input.value@.len(),
                len > 0,
                input.value@[0] == AMPERSAND,
                0 <= index <= len,
                index <= MAX_ENTITY_LEN + 1,
                forall|j: int| 0 <= j < index ==> input.value@[j] != SEMICOLON,
            decreases len - index,
        {
            if input.value[index] == SEMICOLON {
                assert(terminated_at(input.value@, index as int));
                return Ok(index + 1);
            }
            index = index + 1;
        }
        assert forall|at: int| !terminated_at(input.value@, at) by {
            if 0 <= at < len && at <= MAX_ENTITY_LEN {
                assert(input.value@[at] != SEMICOLON);
            }
        }
        Err(MarkDownError::Kind(Kind::Entity, ControlFlow::Fatal, input.to_span_at(MAX_ENTITY_LEN)))
    }

    /// Builds the node from the first `len` bytes of the input, given
    /// whether their text is a known name.
    pub fn accept(input: &mut TokenStream<'a>, len: usize, known: bool) -> (r: Result<
        Entity<'a>,
        MarkDownError,
    >)
        requires
            old(input).wf(),
            len <= old(input).value@.len(),
        ensures
            r is Ok <==> known,
            match r {
                Ok(node) => {
                    &&& old(input)@.splits_into(node.0@, final(input)@)
                    &&& node.0.value@ == old(input).value@.take(len as int)
                },
                Err(e) => e == unknown_name(old(input)@, len as int) && *final(input) == *old(
                    input,
                ),
            },
            final(input).wf(),
    {
        if known {
            Ok(Entity(input.split_to(len)))
        } else {
            Err(MarkDownError::Kind(Kind::Entity, ControlFlow::Fatal, input.to_span_at(len)))
        }
    }

    /// Takes a named character reference at the cursor.
    pub fn parse(input: &mut TokenStream<'a>) -> (r: Result<Entity<'a>, MarkDownError>)
        requires
            old(input).wf(),
        ensures
            r is Ok <==> delimited(old(input)@) && exists|at: int|
                terminated_at(old(input).value@, at) && is_entity_name(
                    old(input).value@.take(at + 1),
                ),
            match r {
                Ok(node) => {
                    &&& node.parsed(old(input)@, final(input)@)
                    &&& is_entity_name(node.0.value@)
                    &&& node.region() == consumed(old(input)@, final(input)@)
                    &&& node.text() + final(input).value@ == old(input).value@
                },
                Err(e) => {
                    &&& *final(input) == *old(input)
                    &&& e == if !(old(input).value@.len() > 0 && old(input).value@[0]
                        == AMPERSAND) {
                        not_a_reference(old(input)@)
                    } else if !delimited(old(input)@) {
                        unterminated(old(input)@)
                    } else {
                        unknown_name(
                            old(input)@,
                            (choose|at: int| terminated_at(old(input).value@, at)) + 1,
                        )
                    }
                },
            },
            final(input).wf(),
    {
        let len = match Self::delimit(input) {
            Ok(len) => len,
            Err(e) => {
                return Err(e);
            },
        };
        proof {
            assert forall|at: int| terminated_at(input.value@, at) implies at == len - 1 by {
                if at < len - 1 {
                    assert(input.value@[at] != SEMICOLON);
                } else if at > len - 1 {
                    assert(input.value@[len - 1] != SEMICOLON);
                }
            }
        }
        let mut name = *input;
        let name = name.split_to(len);
        let known = is_known(name.value);
        Self::accept(input, len, known)
    }

    /// The region the reference covers.
    pub fn to_span(&self) -> (r: Span)
        requires
            self.0.wf(),
        ensures
            r == self.region(),
    {
        self.0.to_span()
    }
}

} // verus!
