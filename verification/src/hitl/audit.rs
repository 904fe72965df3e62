//! The audit trail of approval decisions.

use vstd::prelude::*;
use vstd::string::*;
use crate::table::Table;
use crate::hitl::request::{ApprovalRequest, ApprovalResponse, same_request, same_response};
use crate::support::utc_now_millis;

verus! {

/// One decision on record.
#[derive(Debug, Clone)]
pub struct AuditRecord {
    pub request: ApprovalRequest,
    pub response: ApprovalResponse,
    /// Time of the decision, milliseconds since the Unix epoch.
    pub responded_at: i64,
    /// Time from request to decision.
    pub duration_ms: u64,
}

/// Whether two records hold the same values.
pub open spec fn same_record(a: AuditRecord, b: AuditRecord) -> bool {
    &&& same_request(a.request, b.request)
    &&& same_response(a.response, b.response)
    &&& a.responded_at == b.responded_at
    &&& a.duration_ms == b.duration_ms
}

impl AuditRecord {
    pub fn duplicate(&self) -> (r: AuditRecord)
        ensures
            same_record(r, *self),
            r.request.id@ == self.request.id@,
            r.request.action@ == self.request.action@,
            r.request.risk_level == self.request.risk_level,
            r.response is Approved <==> self.response is Approved,
            r.response is Denied <==> self.response is Denied,
            r.response is Modified <==> self.response is Modified,
            r.response is Timeout <==> self.response is Timeout,
            r.responded_at == self.responded_at,
            r.duration_ms == self.duration_ms,
    {
        AuditRecord {
            request: self.request.duplicate(),
            response: self.response.duplicate(),
            responded_at: self.responded_at,
            duration_ms: self.duration_ms,
        }
    }
}

/// The decisions on record, one per request id.
pub struct ApprovalAudit {
    pub records: Table<AuditRecord>,
}

impl ApprovalAudit {
    pub open spec fn wf(&self) -> bool {
        &&& self.records.wf()
        &&& forall|k: Seq<char>| #[trigger] self.records.view().contains_key(k) ==> self.records.view()[k].request.id@ == k
    }

    pub fn new() -> (a: ApprovalAudit)
        ensures
            a.wf(),
            a.records.view() == Map::<Seq<char>, AuditRecord>::empty(),
    {
        ApprovalAudit { records: Table::new() }
    }

    /// Records a decision under the request's id, replacing any earlier record for it.
    pub fn record(&mut self, request: ApprovalRequest, response: ApprovalResponse, duration_ms: u64)
        requires
            old(self).wf(),
        ensures
            final(self).wf(),
            final(self).records.view().dom() == old(self).records.view().dom().insert(request.id@),
            final(self).records.view()[request.id@].request == request,
            final(self).records.view()[request.id@].response == response,
            final(self).records.view()[request.id@].duration_ms == duration_ms,
            forall|k: Seq<char>| k != request.id@ && #[trigger] old(self).records.view().contains_key(k)
                ==> final(self).records.view()[k] == old(self).records.view()[k],
    {
        let id = request.id.clone();
        let rec = AuditRecord { request, response, responded_at: utc_now_millis(), duration_ms };
        self.records.insert(id, rec);
        assert(self.records.view().dom() =~= old(self).records.view().dom().insert(request.id@));
    }

    /// The record for a request id.
    pub fn get(&self, request_id: &str) -> (r: Option<AuditRecord>)
        requires
            self.wf(),
        ensures
            r is Some <==> self.records.view().contains_key(request_id@),
            r matches Some(x) ==> same_record(x, self.records.view()[request_id@]),
    {
        match self.records.get(request_id) {
            Some(r) => Some(r.duplicate()),
            None => None,
        }
    }

    /// Copies of all records, one per request id.
    pub fn get_all(&self) -> (v: Vec<AuditRecord>)
        requires
            self.wf(),
        ensures
            v@.len() == self.records.view().len(),
            forall|i: int| 0 <= i < v@.len() ==> self.records.view().contains_key(#[trigger] v@[i].request.id@)
                && same_record(v@[i], self.records.view()[v@[i].request.id@]),
            forall|i: int, j: int| 0 <= i < j < v@.len() ==> v@[i].request.id@ != v@[j].request.id@,
    {
        let mut v: Vec<AuditRecord> = Vec::new();
        proof { self.records.lemma_dom_is_keys(); }
        let n = self.records.len();
        let mut i: usize = 0;
        while i < n
            invariant
                self.wf(),
                n == self.records.entry_seq().len(),
                n == self.records.view().len(),
                i <= n,
                v@.len() == i,
                forall|j: int| 0 <= j < i ==> self.records.view().contains_key(#[trigger] v@[j].request.id@)
                    && same_record(v@[j], self.records.view()[v@[j].request.id@]),
                forall|j: int| 0 <= j < i ==> #[trigger] v@[j].request.id@ == self.records.key_seq()[j],
                self.records.key_seq().no_duplicates(),
            decreases n - i,
        {
            let (k, rec) = self.records.entry_at(i);
            proof { self.records.lemma_entries_agree(i as int); }
            v.push(rec.duplicate());
            i = i + 1;
        }
        v
    }

    /// The number of records.
    pub fn count(&self) -> (n: usize)
        requires
            self.wf(),
        ensures
            n == self.records.view().len(),
    {
        self.records.len()
    }

    /// Removes every record.
    pub fn clear(&mut self)
        requires
            old(self).wf(),
        ensures
            final(self).wf(),
            final(self).records.view() == Map::<Seq<char>, AuditRecord>::empty(),
    {
        self.records.clear();
    }
}

impl Default for ApprovalAudit {
    fn default() -> (a: Self)
        ensures
            a.wf(),
            a.records.view() == Map::<Seq<char>, AuditRecord>::empty(),
    {
        ApprovalAudit::new()
    }
}

/// Reading a request's record after recording a decision for it gives that
/// decision; the records of other requests are untouched.
pub proof fn lemma_get_after_record(before: Map<Seq<char>, AuditRecord>, after: Map<Seq<char>, AuditRecord>, request: ApprovalRequest, response: ApprovalResponse, duration_ms: u64, other: Seq<char>)
    requires
        after.dom() == before.dom().insert(request.id@),
        after[request.id@].request == request,
        after[request.id@].response == response,
        after[request.id@].duration_ms == duration_ms,
        forall|k: Seq<char>| k != request.id@ && #[trigger] before.contains_key(k) ==> after[k] == before[k],
        other != request.id@,
    ensures
        after.contains_key(request.id@),
        after[request.id@].response == response,
        after[request.id@].duration_ms == duration_ms,
        after.contains_key(other) == before.contains_key(other),
        before.contains_key(other) ==> after[other] == before[other],
{
}

} // verus!
