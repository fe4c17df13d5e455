//! The steps of one update: discover the address, find the zone, find the
//! record, and rewrite the record only if it has drifted.
//!
//! The library never touches the network. [`update_dns_record`] is a transition
//! function: given where the run stands and what the last request brought, it
//! says which request comes next, or how the run ends.
pub mod client;
pub mod headers;

use crate::cli::Parameters;
use crate::error::{Error, ErrorView};
use crate::http::headers::{default_headers, get_default_headers, header_map_entries};
use reqwest::header::{HeaderMap, HeaderValue};
use vstd::prelude::*;
use vstd::string::*;

verus! {

/// Where the caller's public address is asked for.
pub const CHECK_IP_URL: &'static str = "https://httpbin.org/ip";

/// The provider's list of zones; every other address of the provider starts with it.
pub const CF_BASE_URL: &'static str = "https://api.cloudflare.com/client/v4/zones";

/// The comment that a rewritten record carries.
pub const UPDATE_COMMENT: &'static str = "Powered by Rust !";

/// A zone of the account.
#[derive(Debug, Clone, PartialEq, Eq)]
pub struct DnsZone {
    pub id: String,
    pub name: String,
}

/// A record of a zone. The `id` addresses the record and is never sent in a body.
#[derive(Debug, Clone, PartialEq, Eq)]
pub struct DnsRecord {
    pub id: String,
    pub content: String,
    pub comment: Option<String>,
    pub name: String,
    pub kind: Option<String>,
}

/// The names of the zones, in the order of the list.
pub open spec fn zone_names(zones: Seq<DnsZone>) -> Seq<Seq<char>> {
    Seq::new(zones.len(), |i: int| zones[i].name@)
}

/// The names of the records, in the order of the list.
pub open spec fn record_names(records: Seq<DnsRecord>) -> Seq<Seq<char>> {
    Seq::new(records.len(), |i: int| records[i].name@)
}

/// Whether `i` is the first place in `names` that holds `name`.
pub open spec fn is_first_match(names: Seq<Seq<char>>, name: Seq<char>, i: int) -> bool {
    &&& 0 <= i < names.len()
    &&& names[i] == name
    &&& forall|j: int| 0 <= j < i ==> names[j] != name
}

/// The first place in `names` that holds `name`, if any does.
pub open spec fn first_match(names: Seq<Seq<char>>, name: Seq<char>) -> Option<int> {
    if exists|i: int| is_first_match(names, name, i) {
        Some(choose|i: int| is_first_match(names, name, i))
    } else {
        None
    }
}

/// A name has at most one first place: whoever finds one has found `first_match`.
pub proof fn lemma_first_match_is_unique(names: Seq<Seq<char>>, name: Seq<char>, i: int)
    requires
        is_first_match(names, name, i),
    ensures
        first_match(names, name) == Some(i),
{
    let k = choose|k: int| is_first_match(names, name, k);
    assert(is_first_match(names, name, k));
    if k < i {
        assert(names[k] != name);
    } else if i < k {
        assert(names[i] != name);
    }
}

/// A name that occurs nowhere has no first place.
pub proof fn lemma_first_match_absent(names: Seq<Seq<char>>, name: Seq<char>)
    requires
        forall|j: int| 0 <= j < names.len() ==> names[j] != name,
    ensures
        first_match(names, name).is_none(),
{
}

/// The address of the list of records of a zone.
pub open spec fn records_url_text(zone_id: Seq<char>) -> Seq<char> {
    CF_BASE_URL@ + "/"@ + zone_id + "/dns_records"@
}

/// The address of one record of a zone.
pub open spec fn record_url_text(zone_id: Seq<char>, record_id: Seq<char>) -> Seq<char> {
    records_url_text(zone_id) + "/"@ + record_id
}

/// Builds the address of the list of records of the zone `zone_id`.
pub fn records_url(zone_id: &str) -> (url: String)
    ensures
        url@ == records_url_text(zone_id@),
{
    String::from_str(CF_BASE_URL).concat("/").concat(zone_id).concat("/dns_records")
}

/// Builds the address of the record `record_id` of the zone `zone_id`.
pub fn record_url(zone_id: &str, record_id: &str) -> (url: String)
    ensures
        url@ == record_url_text(zone_id@, record_id@),
{
    records_url(zone_id).concat("/").concat(record_id)
}

/// Picks the zone of the domain: the first in the list whose name is `domain`.
/// Fails with `DnsZoneNotFound` when the list holds none.
pub fn get_zone(zones: Vec<DnsZone>, domain: &String) -> (r: Result<DnsZone, Error>)
    ensures
        match first_match(zone_names(zones@), domain@) {
            Some(i) => r == Ok::<DnsZone, Error>(zones@[i]),
            None => r.is_err() && r.unwrap_err()@ == ErrorView::DnsZoneNotFound,
        },
{
    let mut rest = zones;
    let mut i: usize = 0;
    while i < rest.len()
        invariant
            rest@ == zones@,
            i <= rest.len(),
            forall|j: int| 0 <= j < i ==> zone_names(zones@)[j] != domain@,
        decreases rest.len() - i,
    {
        if rest[i].name == *domain {
            proof {
                lemma_first_match_is_unique(zone_names(zones@), domain@, i as int);
            }
            let zone = rest.remove(i);
            return Ok(zone);
        }
        i += 1;
    }
    proof {
        lemma_first_match_absent(zone_names(zones@), domain@);
    }
    Err(Error::DnsZoneNotFound)
}

/// Picks the record of the domain: the first in the list whose name is
/// `domain`. Fails with `DnsRecordNotFound` when the list holds none.
pub fn get_record(records: Vec<DnsRecord>, domain: &String) -> (r: Result<DnsRecord, Error>)
    ensures
        match first_match(record_names(records@), domain@) {
            Some(i) => r == Ok::<DnsRecord, Error>(records@[i]),
            None => r.is_err() && r.unwrap_err()@ == ErrorView::DnsRecordNotFound,
        },
{
    let mut rest = records;
    let mut i: usize = 0;
    while i < rest.len()
        invariant
            rest@ == records@,
            i <= rest.len(),
            forall|j: int| 0 <= j < i ==> record_names(records@)[j] != domain@,
        decreases rest.len() - i,
    {
        if rest[i].name == *domain {
            proof {
                lemma_first_match_is_unique(record_names(records@), domain@, i as int);
            }
            let record = rest.remove(i);
            return Ok(record);
        }
        i += 1;
    }
    proof {
        lemma_first_match_absent(record_names(records@), domain@);
    }
    Err(Error::DnsRecordNotFound)
}

/// Whether `new` is `record` rewritten for the address `ip`: the content is
/// the address, the comment is the marker, and nothing else has changed.
pub open spec fn is_update_of(new: DnsRecord, record: DnsRecord, ip: Seq<char>) -> bool {
    &&& new.id == record.id
    &&& new.name == record.name
    &&& new.kind == record.kind
    &&& new.content@ == ip
    &&& new.comment.is_some()
    &&& new.comment.unwrap()@ == UPDATE_COMMENT@
}

/// Compares the record with the discovered address, by exact equality of the
/// two texts. Returns the record as it was, and `false`, when they agree; the
/// rewritten record, and `true`, when the record has drifted.
pub fn reconcile(ip: String, record: DnsRecord) -> (r: (DnsRecord, bool))
    ensures
        record.content@ == ip@ ==> !r.1 && r.0 == record,
        record.content@ != ip@ ==> r.1 && is_update_of(r.0, record, ip@),
{
    if ip == record.content {
        (record, false)
    } else {
        let mut new = record;
        new.content = ip;
        new.comment = Some(String::from_str(UPDATE_COMMENT));
        (new, true)
    }
}

/// Where a run stands.
#[derive(Debug, Clone, PartialEq, Eq)]
pub enum State {
    /// Nothing has been asked yet.
    Start,
    /// The public address has been asked for.
    AwaitIp,
    /// The zones have been asked for.
    AwaitZones { ip: String },
    /// The records of the zone have been asked for.
    AwaitRecords { ip: String, zone: DnsZone },
    /// The rewritten record has been sent.
    AwaitUpdate,
    /// The run is over.
    Done,
}

/// What the last request brought.
#[derive(Debug)]
pub enum Event {
    /// The run begins.
    Begin,
    /// The address that the address service reported.
    Ip(String),
    /// The zones of the account, in the provider's order.
    Zones(Vec<DnsZone>),
    /// The records of the zone, in the provider's order.
    Records(Vec<DnsRecord>),
    /// The record as the provider confirmed it.
    Updated(DnsRecord),
    /// The request failed.
    Failed(Error),
}

/// How a run that succeeded ended.
#[derive(Debug, Clone, PartialEq, Eq)]
pub enum Outcome {
    /// The record already held the address; nothing was written.
    UpToDate(DnsRecord),
    /// The record was rewritten; this is the provider's confirmation.
    Updated(DnsRecord),
}

/// What the caller has to do next.
#[derive(Debug)]
pub enum Action {
    /// GET the address service, without credentials.
    GetIp { url: String },
    /// Build the client that sends `headers` with every request, then GET the zones.
    GetZones { headers: HeaderMap<HeaderValue>, url: String },
    /// GET the records of the zone, with the same client.
    GetRecords { url: String },
    /// PUT the record, encoded without its `id`, with the same client.
    PutRecord { url: String, record: DnsRecord },
    /// Stop: the run succeeded.
    Finish(Outcome),
    /// Stop: the run failed.
    Fail(Error),
}

/// A transition: the new state and what to do.
#[derive(Debug)]
pub struct Step {
    pub state: State,
    pub action: Action,
}

/// Whether `event` can answer what was asked in `state`.
pub open spec fn expects(state: State, event: Event) -> bool {
    match (state, event) {
        (State::Start, Event::Begin) => true,
        (State::AwaitIp, Event::Ip(_)) => true,
        (State::AwaitZones { .. }, Event::Zones(_)) => true,
        (State::AwaitRecords { .. }, Event::Records(_)) => true,
        (State::AwaitUpdate, Event::Updated(_)) => true,
        (State::AwaitIp, Event::Failed(_)) => true,
        (State::AwaitZones { .. }, Event::Failed(_)) => true,
        (State::AwaitRecords { .. }, Event::Failed(_)) => true,
        (State::AwaitUpdate, Event::Failed(_)) => true,
        _ => false,
    }
}

/// Whether the run ends here with the failure `e`.
pub open spec fn fails_with(step: Step, e: ErrorView) -> bool {
    &&& step.state == State::Done
    &&& step.action is Fail
    &&& step.action->Fail_0@ == e
}

/// Whether `step` is what follows from `event` in `state`.
///
/// A failure ends the run with that failure, wherever it stands. Otherwise the
/// run goes from the address to the headers and the zones, from the zone to
/// its records, and from the record either to the end, if it holds the
/// address, or to one write and then to the end.
pub open spec fn follows(params: Parameters, state: State, event: Event, step: Step) -> bool {
    match (state, event) {
        (_, Event::Failed(e)) => step.state == State::Done && step.action == Action::Fail(e),
        (State::Start, Event::Begin) => {
            &&& step.state == State::AwaitIp
            &&& step.action is GetIp
            &&& step.action->GetIp_url@ == CHECK_IP_URL@
        },
        (State::AwaitIp, Event::Ip(ip)) => match default_headers(params.token@, params.email@) {
            Err(e) => fails_with(step, e),
            Ok(headers) => {
                &&& step.state == (State::AwaitZones { ip })
                &&& step.action is GetZones
                &&& header_map_entries(step.action->GetZones_headers) == headers
                &&& step.action->GetZones_url@ == CF_BASE_URL@
            },
        },
        (State::AwaitZones { ip }, Event::Zones(zones)) => match first_match(
            zone_names(zones@),
            params.domain@,
        ) {
            None => fails_with(step, ErrorView::DnsZoneNotFound),
            Some(i) => {
                &&& step.state == (State::AwaitRecords { ip, zone: zones@[i] })
                &&& step.action is GetRecords
                &&& step.action->GetRecords_url@ == records_url_text(zones@[i].id@)
            },
        },
        (State::AwaitRecords { ip, zone }, Event::Records(records)) => match first_match(
            record_names(records@),
            params.domain@,
        ) {
            None => fails_with(step, ErrorView::DnsRecordNotFound),
            Some(i) => if records@[i].content@ == ip@ {
                &&& step.state == State::Done
                &&& step.action == Action::Finish(Outcome::UpToDate(records@[i]))
            } else {
                &&& step.state == State::AwaitUpdate
                &&& step.action is PutRecord
                &&& step.action->PutRecord_url@ == record_url_text(zone.id@, records@[i].id@)
                &&& is_update_of(step.action->PutRecord_record, records@[i], ip@)
            },
        },
        (State::AwaitUpdate, Event::Updated(record)) => {
            &&& step.state == State::Done
            &&& step.action == Action::Finish(Outcome::Updated(record))
        },
        _ => false,
    }
}

impl State {
    /// Whether `event` can answer what was asked in this state.
    pub fn expects(&self, event: &Event) -> (r: bool)
        ensures
            r == expects(*self, *event),
    {
        match (self, event) {
            (State::Start, Event::Begin) => true,
            (State::AwaitIp, Event::Ip(_)) => true,
            (State::AwaitZones { .. }, Event::Zones(_)) => true,
            (State::AwaitRecords { .. }, Event::Records(_)) => true,
            (State::AwaitUpdate, Event::Updated(_)) => true,
            (State::AwaitIp, Event::Failed(_)) => true,
            (State::AwaitZones { .. }, Event::Failed(_)) => true,
            (State::AwaitRecords { .. }, Event::Failed(_)) => true,
            (State::AwaitUpdate, Event::Failed(_)) => true,
            _ => false,
        }
    }
}

/// Builds the request that writes `record` into the zone `zone_id`.
pub fn put_record(record: DnsRecord, zone_id: &str) -> (action: Action)
    ensures
        action is PutRecord,
        action->PutRecord_url@ == record_url_text(zone_id@, record.id@),
        action->PutRecord_record == record,
{
    let url = record_url(zone_id, record.id.as_str());
    Action::PutRecord { url, record }
}

/// Takes one step of the update.
///
/// The caller starts in [`State::Start`] with [`Event::Begin`], performs each
/// action it is handed, and comes back with what the request brought, until
/// the action is `Finish` or `Fail`. A failure of any request ends the run
/// with that failure; nothing is retried.
pub fn update_dns_record(params: &Parameters, state: State, event: Event) -> (step: Step)
    requires
        expects(state, event),
    ensures
        follows(*params, state, event, step),
{
    match (state, event) {
        (_, Event::Failed(e)) => Step { state: State::Done, action: Action::Fail(e) },
        (State::Start, Event::Begin) => Step {
            state: State::AwaitIp,
            action: Action::GetIp { url: String::from_str(CHECK_IP_URL) },
        },
        (State::AwaitIp, Event::Ip(ip)) => match get_default_headers(params) {
            Err(e) => Step { state: State::Done, action: Action::Fail(e) },
            Ok(headers) => Step {
                state: State::AwaitZones { ip },
                action: Action::GetZones { headers, url: String::from_str(CF_BASE_URL) },
            },
        },
        (State::AwaitZones { ip }, Event::Zones(zones)) => match get_zone(zones, &params.domain) {
            Err(e) => Step { state: State::Done, action: Action::Fail(e) },
            Ok(zone) => {
                let url = records_url(zone.id.as_str());
                Step { state: State::AwaitRecords { ip, zone }, action: Action::GetRecords { url } }
            },
        },
        (State::AwaitRecords { ip, zone }, Event::Records(records)) => match get_record(
            records,
            &params.domain,
        ) {
            Err(e) => Step { state: State::Done, action: Action::Fail(e) },
            Ok(record) => {
                let (record, drifted) = reconcile(ip, record);
                if drifted {
                    Step { state: State::AwaitUpdate, action: put_record(record, zone.id.as_str()) }
                } else {
                    Step { state: State::Done, action: Action::Finish(Outcome::UpToDate(record)) }
                }
            },
        },
        (State::AwaitUpdate, Event::Updated(record)) => Step {
            state: State::Done,
            action: Action::Finish(Outcome::Updated(record)),
        },
        _ => unreached(),
    }
}

/// A record that already holds the discovered address is left alone: the run
/// ends in success at once, and no write is asked for.
pub proof fn lemma_matching_record_is_left_alone(
    params: Parameters,
    ip: String,
    zone: DnsZone,
    records: Vec<DnsRecord>,
    step: Step,
)
    requires
        follows(params, State::AwaitRecords { ip, zone }, Event::Records(records), step),
        first_match(record_names(records@), params.domain@).is_some(),
        records@[first_match(record_names(records@), params.domain@).unwrap()].content@ == ip@,
    ensures
        step.state == State::Done,
        step.action is Finish,
        !(step.action is PutRecord),
{
}

/// A write is asked for only when the record of the domain differs from the
/// discovered address, and what is written holds that address and the marker.
pub proof fn lemma_write_only_on_drift(params: Parameters, state: State, event: Event, step: Step)
    requires
        follows(params, state, event, step),
        step.action is PutRecord,
    ensures
        state is AwaitRecords,
        event is Records,
        step.state == State::AwaitUpdate,
        first_match(record_names(event->Records_0@), params.domain@).is_some(),
        event->Records_0@[first_match(
            record_names(event->Records_0@),
            params.domain@,
        ).unwrap()].content@ != state->AwaitRecords_ip@,
        step.action->PutRecord_record.content@ == state->AwaitRecords_ip@,
        step.action->PutRecord_record.comment.unwrap()@ == UPDATE_COMMENT@,
{
}

/// After a write nothing more is written: whatever answers it ends the run.
pub proof fn lemma_at_most_one_write(params: Parameters, event: Event, step: Step)
    requires
        follows(params, State::AwaitUpdate, event, step),
    ensures
        step.state == State::Done,
        step.action is Finish || step.action is Fail,
{
}

/// A record that was written for an address, read back as the domain's record
/// with the content it was written with, needs no further write for that address.
pub proof fn lemma_written_record_is_up_to_date(
    params: Parameters,
    ip: String,
    zone: DnsZone,
    records: Vec<DnsRecord>,
    written: Step,
    again: Vec<DnsRecord>,
    next: Step,
)
    requires
        follows(params, State::AwaitRecords { ip, zone }, Event::Records(records), written),
        written.action is PutRecord,
        first_match(record_names(again@), params.domain@).is_some(),
        again@[first_match(record_names(again@), params.domain@).unwrap()].content@
            == written.action->PutRecord_record.content@,
        follows(params, State::AwaitRecords { ip, zone }, Event::Records(again), next),
    ensures
        next.state == State::Done,
        next.action is Finish,
{
}

/// One turn of a run: where it stood, what came in, and what followed.
pub struct Turn {
    pub state: State,
    pub event: Event,
    pub step: Step,
}

/// Whether `turns` is the beginning of a run: it starts at `Start` with
/// `Begin`, every turn follows the rules, and each turn starts where the one
/// before it ended.
pub open spec fn is_run(params: Parameters, turns: Seq<Turn>) -> bool {
    &&& turns.len() > 0
    &&& turns[0].state == State::Start
    &&& turns[0].event == Event::Begin
    &&& forall|i: int|
        0 <= i < turns.len() ==> follows(
            params,
            (#[trigger] turns[i]).state,
            turns[i].event,
            turns[i].step,
        )
    &&& forall|i: int| 0 < i < turns.len() ==> (#[trigger] turns[i]).state == turns[i - 1].step.state
}

/// Whether the record of the domain among `records` holds the address `ip`.
pub open spec fn record_holds(params: Parameters, records: Seq<DnsRecord>, ip: Seq<char>) -> bool {
    &&& first_match(record_names(records), params.domain@).is_some()
    &&& records[first_match(record_names(records), params.domain@).unwrap()].content@ == ip
}

/// A run in which the record of the domain already holds the discovered
/// address asks for no write at all, and ends in success as soon as it has
/// seen the record.
pub proof fn lemma_run_without_drift_never_writes(params: Parameters, turns: Seq<Turn>)
    requires
        is_run(params, turns),
        forall|i: int, j: int|
            0 <= i < turns.len() && 0 <= j < turns.len() && (#[trigger] turns[i]).event is Ip && (
            #[trigger] turns[j]).event is Records ==> record_holds(
                params,
                turns[j].event->Records_0@,
                turns[i].event->Ip_0@,
            ),
    ensures
        forall|j: int| 0 <= j < turns.len() ==> !((#[trigger] turns[j]).step.action is PutRecord),
        forall|j: int|
            0 <= j < turns.len() && (#[trigger] turns[j]).event is Records ==> turns[j].step.state
                == State::Done && turns[j].step.action is Finish,
{
    assert forall|j: int| 0 <= j < turns.len() && (#[trigger] turns[j]).event is Records implies !(
    turns[j].step.action is PutRecord) && turns[j].step.state == State::Done
        && turns[j].step.action is Finish by {
        assert(follows(params, turns[j].state, turns[j].event, turns[j].step));
        assert(turns[j].state is AwaitRecords);
        assert(j >= 1);
        assert(follows(params, turns[j - 1].state, turns[j - 1].event, turns[j - 1].step));
        assert(turns[j - 1].state is AwaitZones);
        assert(j >= 2);
        assert(follows(params, turns[j - 2].state, turns[j - 2].event, turns[j - 2].step));
        assert(turns[j - 2].event is Ip);
        assert(turns[j - 2].event->Ip_0 == turns[j].state->AwaitRecords_ip);
    }
    assert forall|j: int| 0 <= j < turns.len() implies !((#[trigger] turns[j]).step.action is PutRecord) by {
        assert(follows(params, turns[j].state, turns[j].event, turns[j].step));
    }
}

} // verus!
