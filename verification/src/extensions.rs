//! Extension negotiation: matching one requested capability identifier
//! against a sequence of offered capabilities, first match wins.

use vstd::prelude::*;

verus! {

/// One advertisable capability: a stable identifier (the full wire bytes,
/// terminating NUL included) and the address of its fixed function table.
///
/// Identity is by the identifier's byte content, never by where the bytes
/// live. The table address is opaque here: the identifier itself is the type
/// witness under which a caller reinterprets the table, and this layer never
/// inspects or validates the table's contents. An address of zero stands for
/// the null table and never matches.
pub struct ExtensionDescriptor {
    pub identifier: Vec<u8>,
    pub table: usize,
}

/// The abstract state of one negotiation call: the identifier it is bound to
/// and the table recorded so far, if any.
pub ghost struct RegistryView {
    pub requested: Seq<u8>,
    pub found: Option<usize>,
}

/// How one registration attempt moves the registry: inert once a match has
/// been recorded (first match wins), inert on an identifier mismatch or a
/// null table, and recording the table on a fresh match.
pub open spec fn spec_register(s: RegistryView, identifier: Seq<u8>, table: usize) -> RegistryView {
    if s.found is None && identifier == s.requested && table != 0 {
        RegistryView { requested: s.requested, found: Some(table) }
    } else {
        s
    }
}

/// A whole chain of registration attempts, applied in order.
pub open spec fn spec_register_all(s: RegistryView, attempts: Seq<(Seq<u8>, usize)>) -> RegistryView
    decreases attempts.len(),
{
    if attempts.len() == 0 {
        s
    } else {
        spec_register_all(spec_register(s, attempts[0].0, attempts[0].1), attempts.drop_first())
    }
}

/// A per-negotiation-call resolver: bound to exactly one requested identifier
/// for its whole life, it accumulates at most one matched capability table and
/// is discarded once its result has been read.
pub struct HostExtensions {
    requested: Vec<u8>,
    found: Option<usize>,
}

impl View for HostExtensions {
    type V = RegistryView;

    closed spec fn view(&self) -> RegistryView {
        RegistryView { requested: self.requested@, found: self.found }
    }
}

impl HostExtensions {
    /// Binds a fresh registry to the one identifier this negotiation call is
    /// about; no capability has matched yet.
    pub fn new(requested: Vec<u8>) -> (r: HostExtensions)
        ensures
            r@.requested == requested@,
            r@.found is None,
    {
        HostExtensions { requested, found: None }
    }

    /// The negotiation's result: the matched capability table, or absent when
    /// nothing matched — a routine outcome, not a failure.
    pub fn found(&self) -> (r: Option<usize>)
        ensures
            r == self@.found,
    {
        self.found
    }

    /// Probes one capability: records its table when its identifier equals the
    /// requested one, no earlier capability has matched, and its table is not
    /// null; otherwise leaves the registry untouched. Returns the registry
    /// itself so that probe calls chain fluently.
    pub fn register(&mut self, extension: &ExtensionDescriptor) -> (r: &mut HostExtensions)
        ensures
            (*r)@ == spec_register(old(self)@, extension.identifier@, extension.table),
            final(self)@ == final(r)@,
    {
        if self.found.is_some() {
            return self;
        }
        if bytes_equal(&self.requested, &extension.identifier) && extension.table != 0 {
            self.found = Some(extension.table);
        }
        self
    }
}

/// Byte-for-byte comparison of two identifier strings.
fn bytes_equal(a: &Vec<u8>, b: &Vec<u8>) -> (r: bool)
    ensures
        r == (a@ == b@),
{
    if a.len() != b.len() {
        return false;
    }
    let mut i: usize = 0;
    while i < a.len()
        invariant
            i <= a@.len(),
            a@.len() == b@.len(),
            forall|j: int| 0 <= j < i ==> a@[j] == b@[j],
        decreases a@.len() - i,
    {
        if a[i] != b[i] {
            return false;
        }
        i = i + 1;
    }
    proof {
        assert(a@ =~= b@);
    }
    true
}

/// Short-circuit: once a capability has matched, every later registration
/// attempt is inert, whatever identifier or table it offers — a duplicate
/// identifier can never override the first legitimate match.
pub proof fn lemma_register_short_circuit(s: RegistryView, identifier: Seq<u8>, table: usize)
    requires
        s.found is Some,
    ensures
        spec_register(s, identifier, table) == s,
{
}

/// Short-circuit over a whole chain: a registry that has matched stays
/// exactly as it is through any sequence of further attempts.
pub proof fn lemma_register_all_short_circuit(s: RegistryView, attempts: Seq<(Seq<u8>, usize)>)
    requires
        s.found is Some,
    ensures
        spec_register_all(s, attempts) == s,
    decreases attempts.len(),
{
    if attempts.len() > 0 {
        lemma_register_all_short_circuit(spec_register(s, attempts[0].0, attempts[0].1), attempts.drop_first());
    }
}

/// First match wins: on a fresh registry, registering a matching capability
/// and then any further ones yields the first capability's table.
pub proof fn lemma_first_match_wins(s: RegistryView, table: usize, attempts: Seq<(Seq<u8>, usize)>)
    requires
        s.found is None,
        table != 0,
    ensures
        spec_register_all(spec_register(s, s.requested, table), attempts).found == Some(table),
{
    lemma_register_all_short_circuit(spec_register(s, s.requested, table), attempts);
}

/// Miss: when none of the attempted identifiers equals the requested one, the
/// result stays absent.
pub proof fn lemma_register_all_miss(s: RegistryView, attempts: Seq<(Seq<u8>, usize)>)
    requires
        s.found is None,
        forall|i: int| 0 <= i < attempts.len() ==> (#[trigger] attempts[i]).0 != s.requested,
    ensures
        spec_register_all(s, attempts).found is None,
        spec_register_all(s, attempts).requested == s.requested,
    decreases attempts.len(),
{
    if attempts.len() > 0 {
        assert(attempts[0].0 != s.requested);
        lemma_register_all_miss(spec_register(s, attempts[0].0, attempts[0].1), attempts.drop_first());
    }
}

/// Registration never rebinds the registry: the requested identifier stands
/// for the registry's whole life.
pub proof fn lemma_register_preserves_requested(s: RegistryView, identifier: Seq<u8>, table: usize)
    ensures
        spec_register(s, identifier, table).requested == s.requested,
{
}

} // verus!
