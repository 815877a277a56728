//! Run executor and tick planning: one tenant's generate, deliver and
//! record sequence with failure isolation, and the per-tick selection of due
//! tenants.
//!
//! Generation and delivery are outside work; the library decides. A caller
//! runs [`plan_after_generation`] on the generation outcome, performs the
//! delivery a [`DeliveryPlan::Send`] asks for, and turns the delivery
//! outcome into the run record with [`record_after_delivery`]. Every
//! invocation produces exactly one run record, on every exit path.

use vstd::prelude::*;
use vstd::string::StrSliceExecFns;
use vstd::string::StringExecFns;

use crate::schedule::Date;
use crate::schedule::MINUTES_PER_DAY;
use crate::schedule::is_due;
use crate::schedule::spec_is_due;
use crate::strutil::opt_view;
use crate::strutil::push_padded_decimal;
use crate::strutil::spec_padded_decimal;
use crate::strutil::trim_ends;
use crate::strutil::trim_of;

verus! {

/// The scheduling-relevant view of one tenant's configuration. Owned by the
/// persistence collaborator; read-only here.
#[derive(Clone)]
pub struct TenantConfig {
    /// The tenant's id, as the 128-bit value of its UUID.
    pub id: u128,
    /// Title of the delivered document; part of the subject line.
    pub title: String,
    /// Scheduled UTC time of day, in minutes since midnight.
    pub send_time_minute: u32,
    /// Only active tenants run.
    pub is_active: bool,
    /// Where the document is delivered.
    pub delivery_email: String,
}

/// Mathematical view of a [`TenantConfig`].
pub ghost struct TenantConfigView {
    pub id: u128,
    pub title: Seq<char>,
    pub send_time_minute: u32,
    pub is_active: bool,
    pub delivery_email: Seq<char>,
}

impl View for TenantConfig {
    type V = TenantConfigView;

    open spec fn view(&self) -> TenantConfigView {
        TenantConfigView {
            id: self.id,
            title: self.title@,
            send_time_minute: self.send_time_minute,
            is_active: self.is_active,
            delivery_email: self.delivery_email@,
        }
    }
}

impl TenantConfig {
    /// A well-formed configuration: the scheduled minute lies within the
    /// day.
    pub open spec fn wf(self) -> bool {
        self.send_time_minute < MINUTES_PER_DAY
    }
}

/// Outcome of one execution attempt.
#[derive(Debug, Clone, Copy, PartialEq, Eq, Structural)]
pub enum RunStatus {
    Success,
    Failure,
}

/// The durable, append-only outcome of one execution attempt for one tenant
/// on one day; the persistence collaborator stamps the time of recording.
#[derive(Debug, Clone, PartialEq, Eq)]
pub struct RunRecord {
    /// Whose attempt this records.
    pub tenant_id: u128,
    /// Whether the attempt delivered.
    pub status: RunStatus,
    /// The failure's text; absent on success.
    pub error_message: Option<String>,
}

/// Mathematical view of a [`RunRecord`].
pub ghost struct RunRecordView {
    pub tenant_id: u128,
    pub status: RunStatus,
    pub error_message: Option<Seq<char>>,
}

impl View for RunRecord {
    type V = RunRecordView;

    open spec fn view(&self) -> RunRecordView {
        RunRecordView {
            tenant_id: self.tenant_id,
            status: self.status,
            error_message: opt_view(self.error_message),
        }
    }
}

/// What to do after generation: record a failure and stop, or deliver.
pub enum DeliveryPlan {
    /// Generation failed or produced nothing usable: append this record and
    /// do not attempt delivery.
    Record(RunRecord),
    /// Deliver the document, then record the delivery's outcome.
    Send { address: String, subject: String, body: String },
}

/// Mathematical view of a [`DeliveryPlan`].
pub ghost enum PlanView {
    Record(RunRecordView),
    Send { address: Seq<char>, subject: Seq<char>, body: Seq<char> },
}

impl View for DeliveryPlan {
    type V = PlanView;

    open spec fn view(&self) -> PlanView {
        match self {
            DeliveryPlan::Record(rec) => PlanView::Record(rec@),
            DeliveryPlan::Send { address, subject, body } => PlanView::Send {
                address: address@,
                subject: subject@,
                body: body@,
            },
        }
    }
}

/// View of a generation outcome.
pub open spec fn gen_view(g: Result<String, String>) -> Result<Seq<char>, Seq<char>> {
    match g {
        Ok(s) => Ok(s@),
        Err(e) => Err(e@),
    }
}

/// View of a delivery outcome.
pub open spec fn deliv_view(d: Result<(), String>) -> Result<(), Seq<char>> {
    match d {
        Ok(u) => Ok(u),
        Err(e) => Err(e@),
    }
}

/// The date written as `YYYY-MM-DD`.
pub open spec fn spec_date_string(d: Date) -> Seq<char> {
    spec_padded_decimal(d.year as int, 4) + seq!['-'] + spec_padded_decimal(d.month as int, 2)
        + seq!['-'] + spec_padded_decimal(d.day as int, 2)
}

/// Write the date as `YYYY-MM-DD`.
pub fn format_date(d: &Date) -> (r: String)
    requires
        d.wf(),
    ensures
        r@ == spec_date_string(*d),
{
    let mut out = String::new();
    push_padded_decimal(&mut out, d.year, 4);
    out.append("-");
    push_padded_decimal(&mut out, d.month as u32, 2);
    out.append("-");
    push_padded_decimal(&mut out, d.day as u32, 2);
    proof {
        reveal_strlit("-");
        assert("-"@ =~= seq!['-']);
        assert(out@ =~= spec_date_string(*d));
    }
    out
}

/// The subject line of a delivery: the tenant's title and the date.
pub open spec fn spec_subject(title: Seq<char>, today: Date) -> Seq<char> {
    title + " – "@ + spec_date_string(today)
}

/// Compose the subject line from the tenant's title and today's date.
pub fn subject_for(title: &str, today: &Date) -> (r: String)
    requires
        today.wf(),
    ensures
        r@ == spec_subject(title@, *today),
{
    let mut out = title.to_owned();
    out.append(" – ");
    let date = format_date(today);
    out.append(date.as_str());
    proof {
        assert(out@ =~= spec_subject(title@, *today));
    }
    out
}

/// What to do with a generation outcome: a failure, or content that is
/// empty once trimmed, is recorded as this tenant's one `Failure` record
/// and delivery is not attempted; otherwise the trimmed content is
/// delivered under the composed subject.
pub open spec fn spec_plan_after_generation(
    t: TenantConfigView,
    today: Date,
    gen: Result<Seq<char>, Seq<char>>,
) -> PlanView {
    match gen {
        Err(e) => PlanView::Record(
            RunRecordView { tenant_id: t.id, status: RunStatus::Failure, error_message: Some(e) },
        ),
        Ok(text) => {
            let body = trim_of(text);
            if body.len() == 0 {
                PlanView::Record(
                    RunRecordView {
                        tenant_id: t.id,
                        status: RunStatus::Failure,
                        error_message: Some("generated content was empty after trimming"@),
                    },
                )
            } else {
                PlanView::Send {
                    address: t.delivery_email,
                    subject: spec_subject(t.title, today),
                    body,
                }
            }
        },
    }
}

/// Decide what follows one tenant's generation outcome.
pub fn plan_after_generation(
    tenant: &TenantConfig,
    today: &Date,
    generation: Result<String, String>,
) -> (p: DeliveryPlan)
    requires
        today.wf(),
    ensures
        p@ == spec_plan_after_generation(tenant@, *today, gen_view(generation)),
{
    match generation {
        Err(e) => DeliveryPlan::Record(
            RunRecord {
                tenant_id: tenant.id,
                status: RunStatus::Failure,
                error_message: Some(e),
            },
        ),
        Ok(text) => {
            let body = trim_ends(text.as_str());
            if body.is_empty() {
                DeliveryPlan::Record(
                    RunRecord {
                        tenant_id: tenant.id,
                        status: RunStatus::Failure,
                        error_message: Some(
                            String::from_str("generated content was empty after trimming"),
                        ),
                    },
                )
            } else {
                let subject = subject_for(tenant.title.as_str(), today);
                DeliveryPlan::Send {
                    address: tenant.delivery_email.clone(),
                    subject,
                    body: body.to_owned(),
                }
            }
        },
    }
}

/// The record a delivery outcome earns: success with no message, or failure
/// carrying the delivery's error text.
pub open spec fn spec_record_after_delivery(
    tenant_id: u128,
    delivery: Result<(), Seq<char>>,
) -> RunRecordView {
    match delivery {
        Ok(_) => RunRecordView { tenant_id, status: RunStatus::Success, error_message: None },
        Err(e) => RunRecordView { tenant_id, status: RunStatus::Failure, error_message: Some(e) },
    }
}

/// Turn one tenant's delivery outcome into its run record.
pub fn record_after_delivery(tenant_id: u128, delivery: Result<(), String>) -> (r: RunRecord)
    ensures
        r@ == spec_record_after_delivery(tenant_id, deliv_view(delivery)),
{
    match delivery {
        Ok(_) => RunRecord { tenant_id, status: RunStatus::Success, error_message: None },
        Err(e) => RunRecord { tenant_id, status: RunStatus::Failure, error_message: Some(e) },
    }
}

/// The record and delivery mark of one full run, given the outcomes of the
/// outside calls it makes: exactly one record, on every path, and delivery
/// is attempted exactly when generation produced usable content.
pub open spec fn spec_run_record(
    t: TenantConfigView,
    today: Date,
    gen: Result<Seq<char>, Seq<char>>,
    delivery: Result<(), Seq<char>>,
) -> (RunRecordView, bool) {
    match spec_plan_after_generation(t, today, gen) {
        PlanView::Record(rec) => (rec, false),
        PlanView::Send { .. } => (spec_record_after_delivery(t.id, delivery), true),
    }
}

/// Law: a failing generation yields exactly the one `Failure` record
/// carrying the generation's error, and no delivery is attempted, whatever
/// the delivery outcome would have been.
pub proof fn lemma_failed_generation_never_delivers(
    t: TenantConfigView,
    today: Date,
    e: Seq<char>,
    delivery: Result<(), Seq<char>>,
)
    ensures
        spec_run_record(t, today, Err(e), delivery) == (
            RunRecordView { tenant_id: t.id, status: RunStatus::Failure, error_message: Some(e) },
            false,
        ),
{
}

/// Law: generated content that is empty once trimmed yields exactly one
/// `Failure` record, and no delivery is attempted, whatever the delivery
/// outcome would have been.
pub proof fn lemma_empty_generation_never_delivers(
    t: TenantConfigView,
    today: Date,
    text: Seq<char>,
    delivery: Result<(), Seq<char>>,
)
    requires
        trim_of(text).len() == 0,
    ensures
        spec_run_record(t, today, Ok(text), delivery) == (
            RunRecordView {
                tenant_id: t.id,
                status: RunStatus::Failure,
                error_message: Some("generated content was empty after trimming"@),
            },
            false,
        ),
{
}

/// One tenant's full run on given generation and delivery outcomes: the one
/// run record it produces, and whether delivery was attempted. The record
/// always names this tenant.
pub fn run_due_tenant(
    tenant: &TenantConfig,
    today: &Date,
    generation: Result<String, String>,
    delivery: Result<(), String>,
) -> (r: (RunRecord, bool))
    requires
        today.wf(),
    ensures
        r.0@ == spec_run_record(tenant@, *today, gen_view(generation), deliv_view(delivery)).0,
        r.1 == spec_run_record(tenant@, *today, gen_view(generation), deliv_view(delivery)).1,
        r.0.tenant_id == tenant.id,
{
    match plan_after_generation(tenant, today, generation) {
        DeliveryPlan::Record(rec) => (rec, false),
        DeliveryPlan::Send { address: _, subject: _, body: _ } => (
            record_after_delivery(tenant.id, delivery),
            true,
        ),
    }
}

/// Tenant `i` of the tick is due: it is active and the dueness policy grants
/// it a run now.
pub open spec fn spec_tick_due(
    tenants: Seq<TenantConfig>,
    last_runs: Seq<Option<Date>>,
    today: Date,
    now_minute: u32,
    i: int,
) -> bool {
    &&& tenants[i].is_active
    &&& spec_is_due(today, now_minute, tenants[i].send_time_minute, last_runs[i])
}

/// One tick's plan: the indices of the tenants that are due now, in order.
/// A tenant that is inactive or not due is left out; nothing else is.
pub fn tick_plan(
    tenants: &Vec<TenantConfig>,
    last_runs: &Vec<Option<Date>>,
    today: &Date,
    now_minute: u32,
) -> (r: Vec<usize>)
    requires
        tenants@.len() == last_runs@.len(),
        now_minute < MINUTES_PER_DAY,
        forall|i: int| 0 <= i < tenants@.len() ==> (#[trigger] tenants@[i]).wf(),
    ensures
        forall|j: int|
            0 <= j < r@.len() ==> r@[j] < tenants@.len() && spec_tick_due(
                tenants@,
                last_runs@,
                *today,
                now_minute,
                r@[j] as int,
            ),
        forall|j: int, k: int| 0 <= j < k < r@.len() ==> r@[j] < r@[k],
        forall|i: int|
            0 <= i < tenants@.len() && spec_tick_due(tenants@, last_runs@, *today, now_minute, i)
                ==> exists|j: int| 0 <= j < r@.len() && r@[j] == i,
{
    let n = tenants.len();
    let mut due: Vec<usize> = Vec::new();
    let mut i: usize = 0;
    while i < n
        invariant
            n == tenants@.len(),
            n == last_runs@.len(),
            now_minute < MINUTES_PER_DAY,
            forall|t: int| 0 <= t < tenants@.len() ==> (#[trigger] tenants@[t]).wf(),
            i <= n,
            forall|j: int|
                0 <= j < due@.len() ==> due@[j] < i && spec_tick_due(
                    tenants@,
                    last_runs@,
                    *today,
                    now_minute,
                    due@[j] as int,
                ),
            forall|j: int, k: int| 0 <= j < k < due@.len() ==> due@[j] < due@[k],
            forall|t: int|
                0 <= t < i && spec_tick_due(tenants@, last_runs@, *today, now_minute, t)
                    ==> exists|j: int| 0 <= j < due@.len() && due@[j] == t,
        decreases n - i,
    {
        let tenant = &tenants[i];
        if tenant.is_active && is_due(today, now_minute, tenant.send_time_minute, &last_runs[i]) {
            let ghost before = due@;
            due.push(i);
            proof {
                assert(due@[due@.len() - 1] == i);
                assert forall|t: int|
                    0 <= t < i + 1 && spec_tick_due(
                        tenants@,
                        last_runs@,
                        *today,
                        now_minute,
                        t,
                    ) implies exists|j: int| 0 <= j < due@.len() && due@[j] == t by {
                    if t < i {
                        let j0 = choose|j: int| 0 <= j < before.len() && before[j] == t;
                        assert(due@[j0] == t);
                    } else {
                        assert(due@[due@.len() - 1] == t);
                    }
                }
            }
        }
        i += 1;
    }
    due
}

fn clone_generation(g: &Result<String, String>) -> (r: Result<String, String>)
    ensures
        r == *g,
{
    match g {
        Ok(s) => Ok(s.clone()),
        Err(e) => Err(e.clone()),
    }
}

fn clone_delivery(d: &Result<(), String>) -> (r: Result<(), String>)
    ensures
        r == *d,
{
    match d {
        Ok(u) => Ok(*u),
        Err(e) => Err(e.clone()),
    }
}

/// The records of one tick over the due tenants, given each tenant's
/// generation and delivery outcomes: every tenant receives exactly one
/// record, its own, whatever happened to the others — failure isolation by
/// construction.
pub fn tick_records(
    tenants: &Vec<TenantConfig>,
    today: &Date,
    generations: &Vec<Result<String, String>>,
    deliveries: &Vec<Result<(), String>>,
) -> (r: Vec<RunRecord>)
    requires
        today.wf(),
        generations@.len() == tenants@.len(),
        deliveries@.len() == tenants@.len(),
    ensures
        r@.len() == tenants@.len(),
        forall|i: int|
            0 <= i < tenants@.len() ==> (#[trigger] r@[i])@ == spec_run_record(
                tenants@[i]@,
                *today,
                gen_view(generations@[i]),
                deliv_view(deliveries@[i]),
            ).0,
        forall|i: int| 0 <= i < tenants@.len() ==> (#[trigger] r@[i]).tenant_id == tenants@[i].id,
{
    let n = tenants.len();
    let mut records: Vec<RunRecord> = Vec::new();
    let mut i: usize = 0;
    while i < n
        invariant
            n == tenants@.len(),
            n == generations@.len(),
            n == deliveries@.len(),
            today.wf(),
            i <= n,
            records@.len() == i,
            forall|t: int|
                0 <= t < i ==> (#[trigger] records@[t])@ == spec_run_record(
                    tenants@[t]@,
                    *today,
                    gen_view(generations@[t]),
                    deliv_view(deliveries@[t]),
                ).0,
            forall|t: int| 0 <= t < i ==> (#[trigger] records@[t]).tenant_id == tenants@[t].id,
        decreases n - i,
    {
        let gen = clone_generation(&generations[i]);
        let delivery = clone_delivery(&deliveries[i]);
        let (record, _sent) = run_due_tenant(&tenants[i], today, gen, delivery);
        records.push(record);
        i += 1;
    }
    records
}

} // verus!
