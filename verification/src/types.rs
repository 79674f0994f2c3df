//! Plain value types shared by every component.

use vstd::prelude::*;

verus! {

/// An API version, major and minor.
#[derive(Clone, Copy, Debug, PartialEq, Eq, Structural)]
pub struct GLVersion {
    pub major: u8,
    pub minor: u8,
}

impl GLVersion {
    pub fn new(major: u8, minor: u8) -> (version: GLVersion)
        ensures
            version == (GLVersion { major, minor }),
    {
        GLVersion { major, minor }
    }
}

/// Which optional buffers a caller wants a context to have.
#[derive(Clone, Copy, Debug, PartialEq, Eq, Structural)]
pub struct ContextAttributeFlags {
    pub alpha: bool,
    pub depth: bool,
    pub stencil: bool,
}

impl ContextAttributeFlags {
    /// No optional buffer at all.
    pub fn empty() -> (flags: ContextAttributeFlags)
        ensures
            flags == (ContextAttributeFlags { alpha: false, depth: false, stencil: false }),
    {
        ContextAttributeFlags { alpha: false, depth: false, stencil: false }
    }
}

/// The abstract request from which a descriptor is negotiated.
#[derive(Clone, Copy, Debug, PartialEq, Eq, Structural)]
pub struct ContextAttributes {
    pub version: GLVersion,
    pub flags: ContextAttributeFlags,
}

/// The process-unique identity of a context.
#[derive(Clone, Copy, Debug, PartialEq, Eq, Structural)]
pub struct ContextID(pub u64);

impl ContextID {
    /// The identity that is assigned after this one.
    pub open spec fn next_spec(self) -> ContextID {
        ContextID((self.0 + 1) as u64)
    }

    /// The identities that `count` assignments in a row hand out, starting
    /// with this one.
    pub open spec fn issued_spec(self, count: nat) -> Seq<ContextID>
        decreases count,
    {
        if count == 0 {
            Seq::empty()
        } else {
            seq![self] + self.next_spec().issued_spec((count - 1) as nat)
        }
    }
}

/// Hands out the next identity and moves the counter on. The caller holds
/// the lock that guards the counter.
///
/// The counter must not have run out: an identity is never used twice.
pub fn assign_context_id(next_context_id: &mut ContextID) -> (id: ContextID)
    requires
        old(next_context_id).0 < u64::MAX,
    ensures
        id == *old(next_context_id),
        *final(next_context_id) == old(next_context_id).next_spec(),
{
    let id = *next_context_id;
    next_context_id.0 = next_context_id.0 + 1;
    id
}

/// Identity monotonicity: of the identities that any number of assignments
/// hand out, a later one is greater than an earlier one, so no two are the
/// same.
pub proof fn lemma_identities_increase(first: ContextID, count: nat, earlier: int, later: int)
    requires
        first.0 + count <= u64::MAX,
        0 <= earlier < later < count,
    ensures
        first.issued_spec(count).len() == count,
        first.issued_spec(count)[earlier].0 < first.issued_spec(count)[later].0,
        first.issued_spec(count)[earlier] != first.issued_spec(count)[later],
{
    lemma_issued(first, count, earlier);
    lemma_issued(first, count, later);
}

/// The identity that the assignment at `position` hands out.
proof fn lemma_issued(first: ContextID, count: nat, position: int)
    requires
        first.0 + count <= u64::MAX,
        0 <= position < count,
    ensures
        first.issued_spec(count).len() == count,
        first.issued_spec(count)[position].0 == first.0 + position,
    decreases count,
{
    lemma_issued_len(first, count);
    if position > 0 {
        lemma_issued(first.next_spec(), (count - 1) as nat, position - 1);
    }
}

/// Every assignment hands out one identity.
proof fn lemma_issued_len(first: ContextID, count: nat)
    ensures
        first.issued_spec(count).len() == count,
    decreases count,
{
    if count > 0 {
        lemma_issued_len(first.next_spec(), (count - 1) as nat);
    }
}

} // verus!
