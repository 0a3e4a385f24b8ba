use vstd::prelude::*;

verus! {

/// A half-open byte range `[start, end)` into the text of a policy.
#[derive(Debug, Clone, Copy, PartialEq, Eq, Structural)]
pub struct SourceInfo {
    pub start: usize,
    pub end: usize,
}

impl SourceInfo {
    pub fn new(start: usize, end: usize) -> (r: SourceInfo)
        ensures
            r.start == start,
            r.end == end,
    {
        SourceInfo { start, end }
    }
}

/// The place a diagnostic refers to: the policy it was found in, and, where the
/// diagnostic belongs to one syntactic node, that node's span.
#[derive(Debug, Clone, PartialEq, Eq)]
pub struct SourceLocation {
    policy_id: String,
    source_info: Option<SourceInfo>,
}

/// What `str::escape_debug` makes of a string.
pub uninterp spec fn escape_debug_of(s: Seq<char>) -> Seq<char>;

/// Relies on `str::escape_debug`, which is how a policy identifier is shown:
/// the result depends on the characters of `s` alone.
#[verifier::external_body]
pub(crate) fn escape_debug(s: &str) -> (r: String)
    ensures
        r@ == escape_debug_of(s@),
{
    s.escape_debug().to_string()
}

impl SourceLocation {
    /// The identifier of the policy, as written in the policy set.
    pub closed spec fn spec_policy_id(&self) -> Seq<char> {
        self.policy_id@
    }

    /// The span of the offending node, if there is one.
    pub closed spec fn spec_source_info(&self) -> Option<SourceInfo> {
        self.source_info
    }

    pub fn new(policy_id: String, source_info: Option<SourceInfo>) -> (r: SourceLocation)
        ensures
            r.spec_policy_id() == policy_id@,
            r.spec_source_info() == source_info,
    {
        SourceLocation { policy_id, source_info }
    }

    /// The identifier of the policy this location is in.
    pub fn policy_id(&self) -> (r: &String)
        ensures
            r@ == self.spec_policy_id(),
    {
        &self.policy_id
    }

    pub fn source_info(&self) -> (r: &Option<SourceInfo>)
        ensures
            *r == self.spec_source_info(),
    {
        &self.source_info
    }

    pub fn into_source_info(self) -> (r: Option<SourceInfo>)
        ensures
            r == self.spec_source_info(),
    {
        self.source_info
    }

    /// The policy identifier as it is shown in messages.
    pub fn policy_id_text(&self) -> (r: String)
        ensures
            r@ == escape_debug_of(self.spec_policy_id()),
    {
        escape_debug(self.policy_id.as_str())
    }
}

} // verus!
